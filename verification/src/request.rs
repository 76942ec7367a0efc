//! Building the generation request: the server address, the composite
//! prompt, and the JSON body exactly as it goes over the wire.

use vstd::prelude::*;
use crate::textops::{json_escape_text, json_escaped};

verus! {

/// The fixed instruction block that precedes the user's prompt.
pub open spec fn system_instructions_text() -> Seq<char> {
    "\nYou are an expert front-end web generator.\nOUTPUT FORMAT (MANDATORY):\nReturn ONLY a JSON object with EXACT keys: \"html\", \"css\", \"js\". No commentary.\n- \"html\": full HTML allowed, semantic and accessible.\n- \"css\": plain CSS (no <style> tag).\n- \"js\": plain JS (no <script> tag).\nConstraints: mobile-first, responsive, no external CDNs, self-contained, no inline events; use addEventListener.\n"@
}

/// The fixed instruction block that precedes the user's prompt.
pub fn system_instructions() -> (r: &'static str)
    ensures
        r@ == system_instructions_text(),
{
    "\nYou are an expert front-end web generator.\nOUTPUT FORMAT (MANDATORY):\nReturn ONLY a JSON object with EXACT keys: \"html\", \"css\", \"js\". No commentary.\n- \"html\": full HTML allowed, semantic and accessible.\n- \"css\": plain CSS (no <style> tag).\n- \"js\": plain JS (no <script> tag).\nConstraints: mobile-first, responsive, no external CDNs, self-contained, no inline events; use addEventListener.\n"
}

/// The full prompt sent to the model: the instruction block, a separator,
/// then the user's prompt.
pub open spec fn composite_prompt_text(user: Seq<char>) -> Seq<char> {
    system_instructions_text() + "\n\nUSER PROMPT:\n"@ + user
}

/// The full prompt sent to the model.
pub fn composite_prompt(user: &str) -> (r: String)
    ensures
        r@ == composite_prompt_text(user@),
{
    let mut s = String::from_str(system_instructions());
    s.append("\n\nUSER PROMPT:\n");
    s.append(user);
    s
}

/// The JSON body of one generation request: the model name and the composite
/// prompt as escaped JSON strings, streaming off, and the temperature text
/// spliced in as the one option.
pub open spec fn request_body_text(model: Seq<char>, user: Seq<char>, temperature: Seq<char>) -> Seq<
    char,
> {
    "{\"model\":\""@ + json_escaped(model) + "\",\"options\":{\"temperature\":"@ + temperature
        + "},\"prompt\":\""@ + json_escaped(composite_prompt_text(user))
        + "\",\"stream\":false}"@
}

/// Builds the JSON body of one generation request.  `temperature` is the
/// decimal rendering of the caller's temperature, spliced in verbatim.
pub fn build_request_body(model: &str, user: &str, temperature: &str) -> (r: String)
    ensures
        r@ == request_body_text(model@, user@, temperature@),
{
    let mut b = String::from_str("{\"model\":\"");
    let escaped_model = json_escape_text(model);
    b.append(escaped_model.as_str());
    b.append("\",\"options\":{\"temperature\":");
    b.append(temperature);
    b.append("},\"prompt\":\"");
    let prompt = composite_prompt(user);
    let escaped_prompt = json_escape_text(prompt.as_str());
    b.append(escaped_prompt.as_str());
    b.append("\",\"stream\":false}");
    proof {
        assert(b@ =~= request_body_text(model@, user@, temperature@));
    }
    b
}

/// The inference server's address: the configured override when one is set,
/// else the well-known local default.
pub fn resolve_base_url(configured: Option<String>) -> (r: String)
    ensures
        (match configured {
            Some(u) => r@ == u@,
            None => r@ == "http://127.0.0.1:11434"@,
        }),
{
    match configured {
        Some(u) => u,
        None => String::from_str("http://127.0.0.1:11434"),
    }
}

/// The generation endpoint under the server's base address.
pub fn generate_endpoint(base: &str) -> (r: String)
    ensures
        r@ == base@ + "/api/generate"@,
{
    let mut s = String::from_str(base);
    s.append("/api/generate");
    s
}

} // verus!
