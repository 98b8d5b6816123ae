use vstd::prelude::*;

verus! {

/// The settings the notifier runs with: the tailnet, the inventory token,
/// and the push application's token and recipient key.
#[derive(Debug)]
pub struct Config {
    pub tailnet_name: String,
    pub tailscale_token: String,
    pub pushover_token: String,
    pub pushover_user_key: String,
}

impl Default for Config {
    /// All four settings empty: what a first run stores.
    fn default() -> (r: Config)
        ensures
            r.tailnet_name@.len() == 0,
            r.tailscale_token@.len() == 0,
            r.pushover_token@.len() == 0,
            r.pushover_user_key@.len() == 0,
    {
        Config {
            tailnet_name: String::new(),
            tailscale_token: String::new(),
            pushover_token: String::new(),
            pushover_user_key: String::new(),
        }
    }
}

} // verus!
