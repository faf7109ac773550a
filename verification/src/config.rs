//! The settings under which the server runs. They are made once, at startup, and
//! only read thereafter.

use vstd::prelude::*;
use vstd::string::*;

verus! {

/// What a `Config` stands for.
pub struct ConfigView {
    pub listen_addr: Seq<char>,
    pub webroot: Seq<char>,
    pub threads_max: nat,
    pub request_max_bytes: nat,
}

/// True of the sizes that a server can run with: at least one worker, and a limit
/// on requests that is positive and leaves room for one byte more in a buffer.
pub open spec fn usable_sizes(threads_max: nat, request_max_bytes: nat) -> bool {
    0 < threads_max && 0 < request_max_bytes < usize::MAX
}

/// The settings of a server: where it listens, the directory it serves, how many
/// workers it runs and how many bytes a request may have.
#[derive(Debug)]
pub struct Config {
    listen_addr: String,
    webroot: String,
    threads_max: usize,
    request_max_bytes: usize,
}

impl View for Config {
    type V = ConfigView;

    closed spec fn view(&self) -> ConfigView {
        ConfigView {
            listen_addr: self.listen_addr@,
            webroot: self.webroot@,
            threads_max: self.threads_max as nat,
            request_max_bytes: self.request_max_bytes as nat,
        }
    }
}

impl Config {
    #[verifier::type_invariant]
    closed spec fn well_formed(&self) -> bool {
        usable_sizes(self.threads_max as nat, self.request_max_bytes as nat)
    }

    /// The settings with these values, if the sizes are ones that a server can run
    /// with.
    pub fn new(
        listen_addr: String,
        webroot: String,
        threads_max: usize,
        request_max_bytes: usize,
    ) -> (made: Option<Config>)
        ensures
            match made {
                Some(config) => usable_sizes(threads_max as nat, request_max_bytes as nat)
                    && config@ == (ConfigView {
                    listen_addr: listen_addr@,
                    webroot: webroot@,
                    threads_max: threads_max as nat,
                    request_max_bytes: request_max_bytes as nat,
                }),
                None => !usable_sizes(threads_max as nat, request_max_bytes as nat),
            },
    {
        if threads_max == 0 || request_max_bytes == 0 || request_max_bytes == usize::MAX {
            None
        } else {
            Some(Config { listen_addr, webroot, threads_max, request_max_bytes })
        }
    }

    /// The address on which the server listens.
    pub fn listen_addr(&self) -> (listen_addr: &str)
        ensures
            listen_addr@ == self@.listen_addr,
    {
        self.listen_addr.as_str()
    }

    /// The directory whose files are served.
    pub fn webroot(&self) -> (webroot: &str)
        ensures
            webroot@ == self@.webroot,
    {
        self.webroot.as_str()
    }

    /// The number of workers, which is positive.
    pub fn threads_max(&self) -> (threads_max: usize)
        ensures
            threads_max == self@.threads_max,
            threads_max > 0,
    {
        proof {
            use_type_invariant(self);
        }
        self.threads_max
    }

    /// The number of bytes from which on a request is too large, which is positive
    /// and below the largest buffer size.
    pub fn request_max_bytes(&self) -> (request_max_bytes: usize)
        ensures
            request_max_bytes == self@.request_max_bytes,
            0 < request_max_bytes < usize::MAX,
    {
        proof {
            use_type_invariant(self);
        }
        self.request_max_bytes
    }
}

} // verus!
