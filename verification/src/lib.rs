//! Software-defined NFC figurine emulation library.
//!
//! The library covers the logic of presenting stored "virtual amiibo"
//! records to games through the console's NFC-tag driver interface:
//! the binary dump codec and key-derivation/decryption engine, the
//! persistent virtual-figurine data model, the per-session emulation
//! protocol state machine, and the process-wide emulation context that
//! the control plane and every session share.
//!
//! All I/O (files, IPC transport, threads, OS events) lives outside the
//! library; callers hand in plain values (bytes read from disk, the
//! outcome of a file probe) and receive plain values back.

pub mod rc;

pub mod date;

pub mod crypto;

pub mod endian;

pub mod ntag;

pub mod bin;

pub mod sf;

pub mod fmt;

pub mod strutil;

pub mod area;

pub mod emu;

pub mod nfp;

pub mod json;

pub mod loader;

pub mod compat;
