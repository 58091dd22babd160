//! The colour mode: whether escape sequences are wanted at all.
use vstd::prelude::*;
use vstd::string::*;

verus! {

/// The variable whose presence, with any value, switches styling off.
pub const NO_COLOR: &'static str = "NO_COLOR";

/// The variable that names the terminal's type.
pub const TERM: &'static str = "TERM";

/// What the colour mode depends on, taken at one moment.
///
/// The decision itself keeps nothing: whoever renders takes a fresh snapshot, so
/// that a change of the surroundings shows at the next rendering.
#[derive(Debug, Clone)]
pub struct Environment {
    /// Styling is switched off for good, whatever the variables say.
    pub color_disabled: bool,
    /// The value of `NO_COLOR`, if the variable is there.
    pub no_color: Option<String>,
    /// The value of `TERM`, if the variable is there.
    pub term: Option<String>,
}

/// The terminal types that get no styling: `dumb` and, by long-standing
/// choice of this library, plain `xterm`. The name must match exactly.
pub open spec fn is_plain_term(name: Seq<char>) -> bool {
    name == seq!['d', 'u', 'm', 'b'] || name == seq!['x', 't', 'e', 'r', 'm']
}

/// The decision. Off if styling is switched off for good; else off if
/// `NO_COLOR` is there, whatever it holds; else off if `TERM` is there and
/// names a plain terminal; else on.
pub open spec fn styles_shown(env: Environment) -> bool {
    if env.color_disabled {
        false
    } else if env.no_color is Some {
        false
    } else if env.term is Some {
        !is_plain_term(env.term->0@)
    } else {
        true
    }
}

/// Whether `name` is the type of a plain terminal.
pub fn plain_term(name: &str) -> (plain: bool)
    ensures
        plain == is_plain_term(name@),
{
    proof {
        reveal_strlit("dumb");
        reveal_strlit("xterm");
    }
    let dumb = String::from_str("dumb");
    let xterm = String::from_str("xterm");
    let given = String::from_str(name);
    assert(dumb@ =~= seq!['d', 'u', 'm', 'b']);
    assert(xterm@ =~= seq!['x', 't', 'e', 'r', 'm']);
    given == dumb || given == xterm
}

/// Should escape sequences be emitted, in these surroundings?
pub fn show_styles(env: &Environment) -> (shown: bool)
    ensures
        shown == styles_shown(*env),
{
    if env.color_disabled {
        false
    } else if env.no_color.is_some() {
        false
    } else {
        match &env.term {
            Some(name) => !plain_term(name.as_str()),
            None => true,
        }
    }
}

} // verus!
