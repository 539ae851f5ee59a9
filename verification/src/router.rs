//! The deep-link router: what a scheme URL does to the launch-path store.
//!
//! A URL reaches the shell in one of two ways. On a cold launch it is the
//! first argument of the process, and the store is seeded with its launch
//! path for the window to ask for later. On a warm launch it arrives while
//! the shell is running; the launch path is stored and the window is sent
//! there at once.

use vstd::prelude::*;
use vstd::string::StringExecFns;
use crate::launch_path::{written, LaunchPathStore};
use crate::scheme_url::{
    extract_path_from_scheme_url,
    has_scheme_prefix,
    is_scheme_url,
    launch_path_of,
    lemma_extraction_yields_what_follows_the_prefix,
    scheme_prefix,
};

verus! {

/// What a store that `held` some text holds after `url` was routed to it.
pub open spec fn routed(held: Seq<char>, url: Seq<char>, scheme: Seq<char>) -> Seq<char> {
    written(held, launch_path_of(url, scheme))
}

/// The scheme URL among the startup arguments: the first argument behind the
/// program's name, where there is one and it begins with `<scheme>://`.
pub open spec fn startup_url(args: Seq<Seq<char>>, scheme: Seq<char>) -> Option<Seq<char>> {
    if args.len() > 1 && has_scheme_prefix(args[1], scheme) {
        Some(args[1])
    } else {
        None
    }
}

/// What a store that `held` some text holds after the startup arguments were
/// inspected: the launch path of their scheme URL, or `held` where they carry
/// none.
pub open spec fn seeded(held: Seq<char>, args: Seq<Seq<char>>, scheme: Seq<char>) -> Seq<char> {
    match startup_url(args, scheme) {
        Some(url) => routed(held, url, scheme),
        None => held,
    }
}

/// The script that sends a window to `path`. The path is put between the
/// quotes as it stands.
pub open spec fn navigation_script(path: Seq<char>) -> Seq<char> {
    "window.location.href = '"@ + path + "'"@
}

/// Builds the script that sends a window to `path`.
pub fn navigation_script_for(path: &str) -> (script: String)
    ensures
        script@ == navigation_script(path@),
{
    let opening: String = "window.location.href = '".to_owned();
    let open_script: String = opening.concat(path);
    open_script.concat("'")
}

/// The cold path. Inspects the arguments that the process was started with,
/// the program's name first, and seeds `store` with the launch path of the
/// scheme URL in first place behind the name. Without such a URL the store is
/// left as it is. Returns whether the store was seeded.
pub fn route_startup_arguments(
    store: &mut LaunchPathStore,
    args: &Vec<String>,
    scheme: &str,
) -> (was_seeded: bool)
    ensures
        was_seeded == startup_url(args.deep_view(), scheme@).is_some(),
        final(store)@ == seeded(old(store)@, args.deep_view(), scheme@),
{
    if args.len() > 1 {
        let url: &str = args[1].as_str();
        assert(args.deep_view()[1] == url@);
        if is_scheme_url(url, scheme) {
            let path: &str = extract_path_from_scheme_url(url, scheme);
            store.write(path.to_owned());
            return true;
        }
    }
    false
}

/// The warm path. Stores the launch path of `url` in `store` and returns the
/// script that sends the window there; the caller runs the script in the
/// window and brings the window to the front.
pub fn route_deep_link(store: &mut LaunchPathStore, url: &str, scheme: &str) -> (script: String)
    ensures
        final(store)@ == routed(old(store)@, url@, scheme@),
        script@ == navigation_script(launch_path_of(url@, scheme@)),
{
    let path: &str = extract_path_from_scheme_url(url, scheme);
    store.write(path.to_owned());
    navigation_script_for(path)
}

/// Routing is idempotent: the same URL routed twice in a row leaves the
/// store as routing it once does.
pub proof fn lemma_routing_twice_is_routing_once(
    held: Seq<char>,
    url: Seq<char>,
    scheme: Seq<char>,
)
    ensures
        routed(routed(held, url, scheme), url, scheme) == routed(held, url, scheme),
{
}

/// A routed URL of the scheme leaves in the store exactly what stood behind
/// `<scheme>://`, whatever the store held before.
pub proof fn lemma_routing_stores_the_path(held: Seq<char>, scheme: Seq<char>, path: Seq<char>)
    ensures
        routed(held, scheme_prefix(scheme) + path, scheme) == path,
{
    lemma_extraction_yields_what_follows_the_prefix(scheme, path);
}

} // verus!
