//! The core of a remote trait-object runtime.
//!
//! Two peers exchange references to service objects over a message transport
//! and call methods on them. This crate holds the parts that decide: the frame
//! codec, the table of exported objects, the slot multiplexer, the port engine
//! that routes incoming frames, the proxy handle and the exchange wrappers.
//! Threads, locks and the transport itself belong to the embedding program.

pub mod service;
pub mod error;
pub mod packet;
pub mod table;
pub mod multiplexer;
pub mod port_stack;
pub mod port;
pub mod context;
pub mod export_import;
pub mod dispatch;
pub mod engine;
pub mod handle;
pub mod exchange;
pub mod laws;
pub mod ping;

pub use crate::context::Context;
pub use crate::dispatch::delete;
pub use crate::dispatch::register;
pub use crate::dispatch::PortDispatcher;
pub use crate::engine::PortEngine;
pub use crate::engine::Routed;
pub use crate::error::PortError;
pub use crate::exchange::ServiceRef;
pub use crate::exchange::ServiceToExport;
pub use crate::exchange::ServiceToImport;
pub use crate::export_import::create_skeleton;
pub use crate::export_import::export_service_into_handle;
pub use crate::export_import::import_service_from_handle;
pub use crate::export_import::HandleToExchange;
pub use crate::export_import::ImportProxy;
pub use crate::export_import::ImportRemote;
pub use crate::export_import::IntoSkeleton;
pub use crate::export_import::Skeleton;
pub use crate::handle::Handle;
pub use crate::multiplexer::Multiplexer;
pub use crate::packet::Frame;
pub use crate::packet::Packet;
pub use crate::packet::PacketKind;
pub use crate::packet::PacketView;
pub use crate::port::Port;
pub use crate::port::WeakPort;
pub use crate::port_stack::get_port;
pub use crate::port_stack::remove_port;
pub use crate::port_stack::set_port;
pub use crate::port_stack::PortStack;
pub use crate::service::MethodId;
pub use crate::service::PortId;
pub use crate::service::Service;
pub use crate::service::ServiceDispatcher;
pub use crate::service::ServiceObjectId;
pub use crate::service::SlotId;
pub use crate::service::TraitId;
pub use crate::table::ObjectTable;
