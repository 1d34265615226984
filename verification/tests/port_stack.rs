use remote_trait_object::port_stack::get_port;
use remote_trait_object::port_stack::remove_port;
use remote_trait_object::port_stack::set_port;
use remote_trait_object::port_stack::PortStack;
use remote_trait_object::port_stack::PORT_STACK_CAP;

#[test]
fn the_cap_is_two() {
    assert_eq!(PORT_STACK_CAP, 2);
}

#[test]
fn the_innermost_port_is_on_top() {
    let mut stack: PortStack<String> = PortStack::new();
    assert!(stack.is_empty());
    assert_eq!(stack.depth(), 0);
    set_port(&mut stack, String::from("outer"));
    assert_eq!(get_port(&stack), "outer");
    assert_eq!(stack.depth(), 1);
    assert!(!stack.is_full());
    set_port(&mut stack, String::from("inner"));
    assert_eq!(get_port(&stack), "inner");
    assert_eq!(stack.top(), "inner");
    assert_eq!(stack.depth(), 2);
    assert!(stack.is_full());
    remove_port(&mut stack);
    assert_eq!(get_port(&stack), "outer");
    assert_eq!(stack.depth(), 1);
    remove_port(&mut stack);
    assert!(stack.is_empty());
}

#[test]
fn the_depth_stays_within_the_cap_over_nested_calls() {
    let mut stack: PortStack<u8> = PortStack::new();
    let mut deepest = 0;
    for round in 0..10u8 {
        assert!(!stack.is_full());
        set_port(&mut stack, round);
        deepest = deepest.max(stack.depth());
        if round % 2 == 0 {
            assert!(!stack.is_full());
            set_port(&mut stack, round + 100);
            deepest = deepest.max(stack.depth());
            assert_eq!(get_port(&stack), round + 100);
            remove_port(&mut stack);
        }
        assert_eq!(get_port(&stack), round);
        remove_port(&mut stack);
    }
    assert!(stack.is_empty());
    assert_eq!(deepest, PORT_STACK_CAP);
}
