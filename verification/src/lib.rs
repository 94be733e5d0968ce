//! Discovery of a usable Python 3 shared library on the host.
//!
//! The crate holds the decisions of the discovery, free of input and output:
//!
//! * [`version`] reads the major and minor number out of the text that an
//!   interpreter reports about itself, and says which versions are accepted;
//! * [`locator`] turns what the host found out (the output of a query program,
//!   an environment variable, registry entries) into an ordered list of
//!   candidate paths;
//! * [`probe`] is the state machine that tries the candidates one after the
//!   other: it says which dynamic-library operation to perform next and what
//!   the answer means;
//! * [`host`] proves what a search comes to on any host: it ends with the
//!   first candidate that passes, or with nothing found, and it releases
//!   every library that it had loaded;
//! * [`text`] cuts bytes into lines and reads them as UTF-8;
//! * [`paths`] puts paths together.
//!
//! The embedding program performs the operations themselves.

pub mod host;
pub mod locator;
pub mod paths;
pub mod probe;
pub mod text;
pub mod version;
