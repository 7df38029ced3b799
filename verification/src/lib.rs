//! Request building, response reading and credential resolution for a
//! command-line client of a generative-language HTTP API.
//!
//! The crate performs no input or output of its own. It says which request
//! to send, which part of a response to show or to save, and which API key
//! to use; the program around it talks to the network, the file system and
//! the secrets tool.
//!
//! - `model`: the model identifiers and the endpoint address.
//! - `json`, `request`: the request bodies and their JSON text.
//! - `document`, `parse`: from the bytes of a response to a `Response`.
//! - `response`: which text and which inline data a response yields.
//! - `image`: from inline data to the bytes of an image.
//! - `generate`: what each of the two commands sends and prints.
//! - `text`, `credential`: the API key, given or looked up.

pub mod credential;
pub mod document;
pub mod generate;
pub mod image;
pub mod json;
pub mod model;
pub mod parse;
pub mod request;
pub mod response;
pub mod text;
