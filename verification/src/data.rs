//! Static configuration for one run: the gateway address and the secret
//! key. The surrounding process reads its arguments and hands them in; the
//! validation of the argument list is verified here.

use vstd::prelude::*;
use vstd::string::*;

verus! {

/// How many arguments the process expects: its own name and the key.
pub const EXPECTED_ARGUMENTS: usize = 2;

/// The fixed gateway address.
pub open spec fn wss_address() -> Seq<char> {
    "wss://gateway.discord.gg/?v=6&encoding=json"@
}

/// Pool of static data.
#[derive(Debug)]
pub struct Pool {
    /// Address of the gateway endpoint
    pub wss_ref: String,
    /// The secret key
    pub key: String,
}

impl Pool {
    /// A pool holding the fixed gateway address and the given key.
    pub fn new(key: String) -> (r: Self)
        ensures
            r.key@ == key@,
            r.wss_ref@ == wss_address(),
    {
        let wss_ref = Pool::get_wss_ref();
        Pool { key, wss_ref }
    }

    /// The gateway address this client connects to.
    pub fn get_wss_ref() -> (r: String)
        ensures
            r@ == wss_address(),
    {
        String::from_str("wss://gateway.discord.gg/?v=6&encoding=json")
    }

    /// The secret key taken from the argument list: present exactly when
    /// the list has the expected length, in which case it is the second
    /// entry.
    pub fn get_secure_key(args: &Vec<String>) -> (r: Option<String>)
        ensures
            match r {
                Some(k) => args@.len() == EXPECTED_ARGUMENTS && k@ == args@[1]@,
                None => args@.len() != EXPECTED_ARGUMENTS,
            },
    {
        if args.len() == EXPECTED_ARGUMENTS {
            Some(args[1].clone())
        } else {
            None
        }
    }
}

} // verus!
