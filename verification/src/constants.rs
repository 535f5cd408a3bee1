//! The well-known module specifier of the runtime CSS injector: the only
//! import target this core ever introduces on its own.

use vstd::prelude::*;

verus! {

/// The default runtime-injector module path.
pub open spec fn default_inject_path_spec() -> Seq<char> {
    "@stylexjs/stylex/lib/stylex-inject"@
}

/// The default runtime-injector module path.
pub fn default_inject_path() -> (r: &'static str)
    ensures
        r@ == default_inject_path_spec(),
{
    "@stylexjs/stylex/lib/stylex-inject"
}

} // verus!
