//! Composition of diagnostic lines: `<name>: [<path>: ]<text>\n`, built
//! in memory so that the caller can hand the bytes to the standard error
//! stream in a single write, and terminate the process for fatal reports.

use crate::progname::{name_text, opt_str_view, NameStore};
use vstd::prelude::*;
use vstd::string::StringExecFns;

verus! {

/// The `<path>: ` portion of a line: the path, a colon and a space, or
/// empty when no path is given.
pub open spec fn path_part(path: Option<Seq<char>>) -> Seq<char> {
    match path {
        Some(p) => p + ": "@,
        None => Seq::empty(),
    }
}

/// The exact text of one diagnostic line: the name (empty when absent), a
/// colon and a space, the optional path with its own colon and space, the
/// message text, and exactly one newline.
pub open spec fn line_spec(
    name: Option<Seq<char>>,
    path: Option<Seq<char>>,
    text: Seq<char>,
) -> Seq<char> {
    name_text(name) + ": "@ + path_part(path) + text + "\n"@
}

/// Builds one diagnostic line from an already rendered name.
pub fn compose_line(name: &str, path: Option<&str>, text: &str) -> (r: String)
    ensures
        r@ == name@ + ": "@ + path_part(opt_str_view(path)) + text@ + "\n"@,
{
    let mut buf = String::new();
    buf.append(name);
    buf.append(": ");
    match path {
        Some(p) => {
            buf.append(p);
            buf.append(": ");
        },
        None => {},
    }
    buf.append(text);
    buf.append("\n");
    proof {
        assert(buf@ =~= name@ + ": "@ + path_part(opt_str_view(path)) + text@ + "\n"@);
    }
    buf
}

/// Composes the warning line for the store's current name. Writing the
/// returned bytes to the diagnostic stream, in one write call, is the
/// caller's step; composition itself cannot fail.
pub fn vwarnp(store: &NameStore, path: Option<&str>, text: &str) -> (r: String)
    ensures
        r@ == line_spec(store@, opt_str_view(path), text@),
{
    let name = store.getprogname();
    compose_line(name.as_str(), path, text)
}

/// Composes a fatal report: a line that is byte-for-byte the warning line
/// `vwarnp` composes for the same inputs, and the status the process must
/// terminate with once the line is written. Termination, the only
/// difference between an error and a warning, is the caller's step.
pub fn verrp(status: i32, store: &NameStore, path: Option<&str>, text: &str) -> (r: (String, i32))
    ensures
        r.0@ == line_spec(store@, opt_str_view(path), text@),
        r.1 == status,
{
    let line = vwarnp(store, path, text);
    (line, status)
}

} // verus!
