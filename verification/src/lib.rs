//! Verified core of an Android embedding shim for the GStreamer multimedia
//! framework.
//!
//! The shim itself is a thin layer of JNI entry points and C-ABI calls: it
//! wires the framework's diagnostics to the Android logger, derives the
//! process environment from the host application's directories, loads a fixed
//! list of plugin shared objects by naming convention, and runs one
//! illustrative audio pipeline.  Everything that layer decides or formats is
//! computed here, on plain values, with a contract:
//!
//! - [`render`] turns machine words into decimal and hexadecimal text;
//! - [`clock`] subtracts and renders the framework's nanosecond timestamps;
//! - [`logcat`] maps log levels to Android priorities and builds the exact
//!   tag and message of every forwarded diagnostic record;
//! - [`paths`] derives the environment assignments from the application's
//!   cache and files directories;
//! - [`plugins`] names each plugin's shared object and registration entry
//!   point and tracks a load walk whose failures are never fatal;
//! - [`init`] holds the host handles, the embedding-version check and the
//!   decisions of the lifecycle entry points;
//! - [`pipeline`] decides the example run loop and decodes its audio samples.
//!
//! The unverified layer performs the calls and owns the raw pointers; it
//! hands plain values in and carries plain values out.

pub mod render;

pub mod clock;

pub mod logcat;

pub mod paths;

pub mod plugins;

pub mod init;

pub mod pipeline;
