//! A web front end for a Matrix room: an HTML feed page, an RSS channel, a live chat over a
//! web socket and a sign-up form for the home server, with the logic verified.
pub mod text;
pub mod mxc;
pub mod time;
pub mod message;
pub mod html;
pub mod html_string;
pub mod feed;
pub mod rss;
pub mod chat;
pub mod signup;
