//! Status-code translation and the hosting layer's error taxonomy.
//!
//! Every native hosting call returns a raw 32-bit status code; `HRESULT`
//! is its translation through a fixed lookup table into a symbolic
//! category. A code of zero denotes success; an unmatched code succeeds
//! exactly when it is non-negative read as a signed 32-bit value.

use vstd::prelude::*;

verus! {

/// Outcome of a native hosting call: the raw 32-bit status code mapped
/// through the fixed lookup table into a symbolic category.
#[derive(Clone, Copy, PartialEq, Eq, Structural, Debug)]
pub enum HRESULT {
    Success,
    FileNotFound,
    TypeLoadFailure,
    EntryPointNotFound,
    DllNotFound,
    UnknownFailure(u32),
}

/// Errors of the hosting layer. Every operation reports its failure
/// through one of these; nothing panics and nothing crosses the native
/// boundary as an exception.
#[derive(Debug)]
pub enum IronCoreError {
    /// A filesystem or library-load failure.
    IoError,
    /// An embedded null byte in a string destined for native interop.
    EncodingError,
    /// A required environment variable is missing.
    EnvironmentError,
    /// A native call returned a failing status code.
    StatusError(HRESULT),
    /// The process's own executable path is unresolvable or not
    /// representable as a string.
    InvalidHostPath,
    /// A required entry point is missing from the runtime library.
    SymbolNotFound(String),
}

pub type IronCoreResult<T> = Result<T, IronCoreError>;

/// The fixed lookup table: which raw codes have a dedicated category.
pub open spec fn spec_in_table(code: u32) -> bool {
    code == 0 || code == 0x8007_0002u32 || code == 0x8013_1522u32 || code == 0x8013_1523u32
        || code == 0x8013_1524u32
}

/// What the translator yields for each raw code.
pub open spec fn spec_translate(code: u32) -> HRESULT {
    if code == 0 {
        HRESULT::Success
    } else if code == 0x8007_0002u32 {
        HRESULT::FileNotFound
    } else if code == 0x8013_1522u32 {
        HRESULT::TypeLoadFailure
    } else if code == 0x8013_1523u32 {
        HRESULT::EntryPointNotFound
    } else if code == 0x8013_1524u32 {
        HRESULT::DllNotFound
    } else {
        HRESULT::UnknownFailure(code)
    }
}

/// Whether `code`, reinterpreted as a signed 32-bit value, is
/// non-negative: its high bit is clear.
pub open spec fn spec_signed_non_negative(code: u32) -> bool {
    code < 0x8000_0000u32
}

/// Whether a category denotes success: only `Success` does, and, for a
/// code outside the table, a non-negative signed reading.
pub open spec fn spec_succeeded(h: HRESULT) -> bool {
    match h {
        HRESULT::Success => true,
        HRESULT::FileNotFound => false,
        HRESULT::TypeLoadFailure => false,
        HRESULT::EntryPointNotFound => false,
        HRESULT::DllNotFound => false,
        HRESULT::UnknownFailure(code) => spec_signed_non_negative(code),
    }
}

impl HRESULT {
    /// Maps a raw 32-bit status code through the fixed lookup table.
    pub fn translate(code: u32) -> (r: HRESULT)
        ensures
            r == spec_translate(code),
    {
        if code == 0 {
            HRESULT::Success
        } else if code == 0x8007_0002u32 {
            HRESULT::FileNotFound
        } else if code == 0x8013_1522u32 {
            HRESULT::TypeLoadFailure
        } else if code == 0x8013_1523u32 {
            HRESULT::EntryPointNotFound
        } else if code == 0x8013_1524u32 {
            HRESULT::DllNotFound
        } else {
            HRESULT::UnknownFailure(code)
        }
    }

    /// True exactly when the category denotes success.
    pub fn succeeded(&self) -> (r: bool)
        ensures
            r == spec_succeeded(*self),
    {
        match *self {
            HRESULT::Success => true,
            HRESULT::FileNotFound => false,
            HRESULT::TypeLoadFailure => false,
            HRESULT::EntryPointNotFound => false,
            HRESULT::DllNotFound => false,
            HRESULT::UnknownFailure(code) => code < 0x8000_0000u32,
        }
    }

    /// True exactly when the category denotes failure: the complement of
    /// `succeeded`.
    pub fn failed(&self) -> (r: bool)
        ensures
            r == !spec_succeeded(*self),
    {
        !self.succeeded()
    }

    /// Converts a failing category into a propagated `StatusError` and a
    /// success into unit.
    pub fn check(self) -> (r: IronCoreResult<()>)
        ensures
            r is Ok <==> spec_succeeded(self),
            r is Err ==> r->Err_0 == IronCoreError::StatusError(self),
    {
        if self.failed() {
            Err(IronCoreError::StatusError(self))
        } else {
            Ok(())
        }
    }
}

/// Law: a code in the known table succeeds exactly when it is zero, and a
/// code outside the table fails exactly when its signed 32-bit reading is
/// negative.
pub proof fn lemma_translate_success(code: u32)
    ensures
        spec_in_table(code) ==> (spec_succeeded(spec_translate(code)) <==> code == 0),
        !spec_in_table(code) ==> (!spec_succeeded(spec_translate(code)) <==> !spec_signed_non_negative(
            code,
        )),
{
}

} // verus!
