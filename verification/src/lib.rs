//! A vhost-user backend that emulates a Virtio SSR (subsystem restart) proxy.
//!
//! The device registers as a client of the platform's SSR client library, which
//! calls it back with the restart events of subsystems, and sends the events to
//! a guest through a virtio ring.
//!
//! This crate holds what the device decides and computes:
//!
//! - [`args`]: the sockets and clients that the command line asks for,
//! - [`supervisor`] and [`server`]: serving the sockets,
//! - [`ssr_client`]: the supported clients and the pending events,
//! - [`vhu_ssr`]: the device, its features and its headers,
//! - [`delivery`]: putting headers into the guest's ring,
//! - [`notify`]: what holds of pending events and their eventfd together.
//!
//! Where a decision depends on the outside, on the ring, an eventfd or a socket,
//! it is a state with an action that is due. The caller does what the action
//! says and hands the outcome back.
pub mod args;
pub mod delivery;
pub mod notify;
pub mod outside;
pub mod path;
pub mod server;
pub mod ssr_client;
pub mod ssr_clients_bindings;
pub mod supervisor;
pub mod text;
pub mod vhu_ssr;
