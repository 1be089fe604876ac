//! The HTTP template: an actor that serves HTTP and WebSocket requests.

use vstd::prelude::*;
use crate::manifest::HandlerConfig;

verus! {

/// What the HTTP template makes.
pub fn get_description() -> (r: &'static str)
    ensures
        r@ == "An HTTP server actor with REST API and WebSocket support"@,
{
    "An HTTP server actor with REST API and WebSocket support"
}

/// The handlers that an HTTP actor declares: the runtime alone; the HTTP
/// framework is brought in by the actor's own code.
pub fn get_handlers() -> (r: Vec<HandlerConfig>)
    ensures
        r@ == seq![HandlerConfig::Runtime],
{
    let mut v: Vec<HandlerConfig> = Vec::new();
    v.push(HandlerConfig::Runtime);
    assert(v@ =~= seq![HandlerConfig::Runtime]);
    v
}

/// The README of an HTTP actor named `name`.
pub open spec fn readme_of(name: Seq<char>) -> Seq<char> {
    "# "@ + name
        + "\n\nA Theater HTTP server actor.\n\n## Features\n\n- HTTP server running on port 8080\n- REST API endpoints\n- WebSocket support\n\n## Building\n\nTo build the actor:\n\n```bash\ncargo build --target wasm32-unknown-unknown --release\n```\n\n## Running\n\nTo run the actor with Theater:\n\n```bash\ntheater start manifest.toml\n```\n\n## API Endpoints\n\n- GET / - Returns a simple HTML welcome page\n- GET /api/hello - Returns a JSON greeting message\n- WS /ws - WebSocket endpoint that echoes messages\n"@
}

/// The README of an HTTP actor named `name`.
pub fn generate_readme(name: &str) -> (r: String)
    ensures
        r@ == readme_of(name@),
{
    let mut s = String::from_str("# ");
    s.append(name);
    s.append(
        "\n\nA Theater HTTP server actor.\n\n## Features\n\n- HTTP server running on port 8080\n- REST API endpoints\n- WebSocket support\n\n## Building\n\nTo build the actor:\n\n```bash\ncargo build --target wasm32-unknown-unknown --release\n```\n\n## Running\n\nTo run the actor with Theater:\n\n```bash\ntheater start manifest.toml\n```\n\n## API Endpoints\n\n- GET / - Returns a simple HTML welcome page\n- GET /api/hello - Returns a JSON greeting message\n- WS /ws - WebSocket endpoint that echoes messages\n",
    );
    s
}

} // verus!
