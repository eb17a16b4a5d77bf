//! Verified core of the Anytype command-line tool and Nushell plugin:
//! client configuration and authentication state, the Nushell value that
//! stands for every Anytype entity, and the decisions and reports of the
//! `object` command.

pub mod api;
pub mod nu_record;
pub mod value;
pub mod entities;
pub mod record_laws;
pub mod text;
pub mod object_command;
pub mod object_laws;
