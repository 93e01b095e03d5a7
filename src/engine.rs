use crate::manager::CoreManager;
use vstd::prelude::*;
use vstd::string::*;

verus! {

/// The engine binaries that can be selected.
pub open spec fn is_valid_core(name: Seq<char>) -> bool {
    name == "verge-mihomo"@ || name == "verge-mihomo-alpha"@
}

/// The engine used when the selection is missing or not a supported one.
pub open spec fn default_core() -> Seq<char> {
    "verge-mihomo"@
}

/// The error text for an unsupported engine name.
pub open spec fn invalid_core_text(name: Seq<char>) -> Seq<char> {
    "Invalid clash core: "@ + name
}

/// Whether `name` is one of the supported engine binaries.
pub fn is_valid_clash_core(name: &str) -> (r: bool)
    ensures
        r == is_valid_core(name@),
{
    let n = String::from_str(name);
    n == String::from_str("verge-mihomo") || n == String::from_str("verge-mihomo-alpha")
}

/// The engine to run for a stored selection: the selection when it is
/// supported, the default engine otherwise.
pub fn valid_clash_core(selection: &Option<String>) -> (r: String)
    ensures
        r@ == (match selection {
            Some(s) => if is_valid_core(s@) {
                s@
            } else {
                default_core()
            },
            None => default_core(),
        }),
{
    match selection {
        Some(s) => if is_valid_clash_core(s.as_str()) {
            s.clone()
        } else {
            String::from_str("verge-mihomo")
        },
        None => String::from_str("verge-mihomo"),
    }
}

impl CoreManager {
    /// Selects another engine binary. An unsupported name is refused and
    /// nothing changes; a supported one becomes the selection, which the
    /// runtime then persists and applies to the running engine by a reload,
    /// without a restart. The mode is never touched.
    pub fn change_core(&self, clash_core: &str, selection: &mut Option<String>) -> (r: Result<
        (),
        String,
    >)
        ensures
            r is Ok <==> is_valid_core(clash_core@),
            r is Ok ==> (*final(selection) matches Some(s) && s@ == clash_core@),
            r matches Err(e) ==> e@ == invalid_core_text(clash_core@) && *final(selection)
                == *old(selection),
    {
        if !is_valid_clash_core(clash_core) {
            return Err(String::from_str("Invalid clash core: ").concat(clash_core));
        }
        *selection = Some(String::from_str(clash_core));
        Ok(())
    }
}

} // verus!
