//! The basic template: an actor that handles messages.

use vstd::prelude::*;
use crate::manifest::HandlerConfig;

verus! {

/// What the basic template makes.
pub fn get_description() -> (r: &'static str)
    ensures
        r@ == "A simple actor with message handling capabilities"@,
{
    "A simple actor with message handling capabilities"
}

/// The handlers that a basic actor declares: the runtime alone.
pub fn get_handlers() -> (r: Vec<HandlerConfig>)
    ensures
        r@ == seq![HandlerConfig::Runtime],
{
    let mut v: Vec<HandlerConfig> = Vec::new();
    v.push(HandlerConfig::Runtime);
    assert(v@ =~= seq![HandlerConfig::Runtime]);
    v
}

/// The README of a basic actor named `name`.
pub open spec fn readme_of(name: Seq<char>) -> Seq<char> {
    "# "@ + name
        + "\n\nA Theater actor created from the basic template.\n\n## Building\n\nTo build the actor:\n\n```bash\ncargo build --target wasm32-unknown-unknown --release\n```\n\n## Running\n\nTo run the actor with Theater:\n\n```bash\ntheater start manifest.toml\n```\n"@
}

/// The README of a basic actor named `name`.
pub fn generate_readme(name: &str) -> (r: String)
    ensures
        r@ == readme_of(name@),
{
    let mut s = String::from_str("# ");
    s.append(name);
    s.append(
        "\n\nA Theater actor created from the basic template.\n\n## Building\n\nTo build the actor:\n\n```bash\ncargo build --target wasm32-unknown-unknown --release\n```\n\n## Running\n\nTo run the actor with Theater:\n\n```bash\ntheater start manifest.toml\n```\n",
    );
    s
}

} // verus!
