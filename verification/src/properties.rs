//! The configuration property bag sent to the runtime's initialize call.
//!
//! The bag holds exactly five key/value pairs in a fixed order. Every
//! value is later handed to native code as a null-terminated string, so
//! building the bag rejects any input that carries an embedded null byte.

use vstd::prelude::*;
use vstd::string::StrSliceExecFns;

use crate::result::{IronCoreError, IronCoreResult};

verus! {

/// Whether a string holds an embedded null character, which no
/// null-terminated native string can carry.
pub open spec fn has_nul(s: Seq<char>) -> bool {
    s.contains('\0')
}

/// Reports whether `s` holds an embedded null character.
pub fn contains_nul(s: &str) -> (r: bool)
    ensures
        r == has_nul(s@),
{
    let len: usize = s.unicode_len();
    let mut i: usize = 0;
    while i < len
        invariant
            len == s@.len(),
            i <= len,
            forall|j: int| 0 <= j < i ==> s@[j] != '\0',
        decreases len - i,
    {
        if s.get_char(i) == '\0' {
            assert(s@[i as int] == '\0');
            return true;
        }
        i += 1;
    }
    false
}

/// The five property keys, in the fixed order the initialize call expects.
pub open spec fn spec_property_keys() -> Seq<Seq<char>> {
    seq![
        "TRUSTED_PLATFORM_ASSEMBLIES"@,
        "APP_PATHS"@,
        "APP_NI_PATHS"@,
        "NATIVE_DLL_SEARCH_DIRECTORIES"@,
        "AppDomainCompatSwitch"@,
    ]
}

/// The fixed value of the `AppDomainCompatSwitch` property.
pub open spec fn spec_compat_switch_value() -> Seq<char> {
    "UseLatestBehaviorWhenTFMNotSpecified"@
}

/// Ordered configuration for the initialize call: five keys and the five
/// matching values, kept as parallel arrays exactly as the native call
/// takes them.
#[derive(Debug)]
pub struct PropertyBag {
    pub keys: Vec<String>,
    pub values: Vec<String>,
}

impl PropertyBag {
    /// A well-formed bag has matching key/value counts and carries the
    /// five fixed keys in order.
    pub open spec fn wf(self) -> bool {
        &&& self.keys@.len() == 5
        &&& self.values@.len() == 5
        &&& forall|i: int| 0 <= i < 5 ==> self.keys@[i]@ == spec_property_keys()[i]
    }

    /// Assembles the property bag for the initialize call: the five fixed
    /// keys in order, paired with the given values and the constant
    /// compatibility switch. Fails with `EncodingError` exactly when an
    /// input holds an embedded null byte.
    pub fn build(
        trusted_assemblies: &str,
        app_paths: &str,
        app_ni_paths: &str,
        native_dll_search_dirs: &str,
    ) -> (r: IronCoreResult<PropertyBag>)
        ensures
            r is Ok <==> !has_nul(trusted_assemblies@) && !has_nul(app_paths@) && !has_nul(
                app_ni_paths@,
            ) && !has_nul(native_dll_search_dirs@),
            r is Err ==> r->Err_0 == IronCoreError::EncodingError,
            r is Ok ==> r->Ok_0.wf(),
            r is Ok ==> r->Ok_0.values@[0]@ == trusted_assemblies@ && r->Ok_0.values@[1]@
                == app_paths@ && r->Ok_0.values@[2]@ == app_ni_paths@ && r->Ok_0.values@[3]@
                == native_dll_search_dirs@ && r->Ok_0.values@[4]@ == spec_compat_switch_value(),
    {
        if contains_nul(trusted_assemblies) || contains_nul(app_paths) || contains_nul(app_ni_paths)
            || contains_nul(native_dll_search_dirs) {
            return Err(IronCoreError::EncodingError);
        }
        let mut keys: Vec<String> = Vec::new();
        keys.push("TRUSTED_PLATFORM_ASSEMBLIES".to_owned());
        keys.push("APP_PATHS".to_owned());
        keys.push("APP_NI_PATHS".to_owned());
        keys.push("NATIVE_DLL_SEARCH_DIRECTORIES".to_owned());
        keys.push("AppDomainCompatSwitch".to_owned());

        let mut values: Vec<String> = Vec::new();
        values.push(trusted_assemblies.to_owned());
        values.push(app_paths.to_owned());
        values.push(app_ni_paths.to_owned());
        values.push(native_dll_search_dirs.to_owned());
        values.push("UseLatestBehaviorWhenTFMNotSpecified".to_owned());

        Ok(PropertyBag { keys, values })
    }
}

} // verus!
