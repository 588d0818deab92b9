//! Building the script a worker executes for one render: a self-invoking
//! async function that calls the configured global render function with the
//! URL and the data payload, wrapped in a try/catch that turns any thrown
//! error into an HTML error page instead of rethrowing it.
//!
//! The URL is escaped as a JS string literal; the data is spliced in as raw
//! JSON, which the engine has validated before anything is enqueued.

use vstd::prelude::*;
use crate::sys::replace_char;
use crate::text::spec_replace_char;

verus! {

/// A URL escaped for splicing between double quotes in JS source:
/// backslashes doubled first, then double quotes backslash-escaped.
pub open spec fn spec_escape_js(s: Seq<char>) -> Seq<char> {
    spec_replace_char(spec_replace_char(s, '\\', "\\\\"@), '"', "\\\""@)
}

/// Escape a URL for use inside a double-quoted JS string literal.
pub fn escape_js_string(s: &str) -> (r: String)
    ensures
        r@ == spec_escape_js(s@),
{
    let once = replace_char(s, '\\', "\\\\");
    replace_char(once.as_str(), '"', "\\\"")
}

/// The render script for a URL, data payload and render-function name: the
/// name is spliced three times (the existence check, the error message, the
/// call), the escaped URL once, and the data once, between these fixed
/// pieces of source.
pub open spec fn spec_render_script(
    render_function: Seq<char>,
    url: Seq<char>,
    data: Seq<char>,
) -> Seq<char> {
    "\n        (async function() {\n            try {\n                if (typeof globalThis."@
        + render_function
        + " !== 'function') {\n                    throw new Error('Render function globalThis."@
        + render_function + " not found');\n                }\n                return await globalThis."@
        + render_function + "(\""@ + spec_escape_js(url) + "\", "@ + data
        + ");\n            } catch (error) {\n                console.error(\"Render error:\", error);\n                return `<html><body><h1>SSR Error</h1><pre>${error.stack || error.message}</pre></body></html>`;\n            }\n        })()\n        "@
}

/// Build the script a worker executes for one render.
pub fn build_render_script(url: &str, data: &str, render_function: &str) -> (r: String)
    ensures
        r@ == spec_render_script(render_function@, url@, data@),
{
    let mut s =
        "\n        (async function() {\n            try {\n                if (typeof globalThis.".to_owned();
    s.append(render_function);
    s.append(" !== 'function') {\n                    throw new Error('Render function globalThis.");
    s.append(render_function);
    s.append(" not found');\n                }\n                return await globalThis.");
    s.append(render_function);
    s.append("(\"");
    let escaped = escape_js_string(url);
    s.append(escaped.as_str());
    s.append("\", ");
    s.append(data);
    s.append(");\n            } catch (error) {\n                console.error(\"Render error:\", error);\n                return `<html><body><h1>SSR Error</h1><pre>${error.stack || error.message}</pre></body></html>`;\n            }\n        })()\n        ");
    proof {
        assert(s@ =~= spec_render_script(render_function@, url@, data@));
    }
    s
}

} // verus!
