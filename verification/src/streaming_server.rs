//! The streaming server as the rest of the application sees it: a port on the
//! loopback interface, a registry of files, and the address under which each
//! registered file can be played.

use crate::numeral::{decimal, push_decimal};
use crate::registry::{file_id, registered, FileRegistry};
use vstd::prelude::*;
use vstd::string::*;

verus! {

/// The server: the port it listens on and the files it serves.
pub struct StreamingServer {
    port: u16,
    file_registry: FileRegistry,
}

/// A server as a mathematical value.
pub struct ServerView {
    pub port: u16,
    pub files: Map<Seq<char>, Seq<char>>,
}

impl View for StreamingServer {
    type V = ServerView;

    closed spec fn view(&self) -> ServerView {
        ServerView { port: self.port, files: self.file_registry@ }
    }
}

/// The socket address of the server: the loopback interface and the port.
pub open spec fn loopback_address(port: u16) -> Seq<char> {
    "127.0.0.1:"@ + decimal(port as nat)
}

/// The address under which a server on `port` serves the file registered
/// under `id`.
pub open spec fn stream_url(port: u16, id: Seq<char>) -> Seq<char> {
    "http://"@ + loopback_address(port) + "/stream/"@ + id
}

impl StreamingServer {
    /// A server for `port` with no file registered.
    pub fn new(port: u16) -> (server: Self)
        ensures
            server@.port == port,
            server@.files == Map::<Seq<char>, Seq<char>>::empty(),
    {
        StreamingServer { port, file_registry: FileRegistry::new() }
    }

    /// The registry of the server, for looking files up.
    pub fn get_file_registry(&self) -> (registry: &FileRegistry)
        ensures
            registry@ == self@.files,
    {
        &self.file_registry
    }

    /// The socket address to listen on: the loopback interface only.
    pub fn bind_address(&self) -> (address: String)
        ensures
            address@ == loopback_address(self@.port),
    {
        let mut address = String::from_str("127.0.0.1:");
        push_decimal(&mut address, self.port as u64);
        address
    }

    /// Registers the file at `file_path` and returns its identifier. The file
    /// need not exist: that shows when it is streamed.
    pub fn register_file(&mut self, file_path: String) -> (id: String)
        ensures
            id@ == file_id(file_path@),
            final(self)@.port == old(self)@.port,
            final(self)@.files == registered(old(self)@.files, file_path@),
    {
        self.file_registry.register(file_path)
    }

    /// Registers the file at `file_path` and returns the address under which
    /// it can be played.
    pub fn get_stream_url(&mut self, file_path: &str) -> (url: String)
        ensures
            url@ == stream_url(old(self)@.port, file_id(file_path@)),
            final(self)@.port == old(self)@.port,
            final(self)@.files == registered(old(self)@.files, file_path@),
    {
        let id = self.register_file(String::from_str(file_path));
        let mut url = String::from_str("http://");
        url.append(self.bind_address().as_str());
        url.append("/stream/");
        url.append(id.as_str());
        url
    }
}

} // verus!
