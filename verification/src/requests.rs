//! Extension requests and their boundary validation.
//!
//! Paths and entry-point names cross into the native engine as
//! null-terminated strings, so a string holding an interior null byte can
//! never be handed to the engine. Validation rejects such input before any
//! native call is attempted.

use crate::errors::LoadExtensionError;
use vstd::prelude::*;
use vstd::string::*;

verus! {

/// Whether the string holds an interior null character, which the native
/// string form cannot represent.
pub open spec fn has_nul(s: Seq<char>) -> bool {
    exists|i: int| 0 <= i < s.len() && s[i] == '\0'
}

/// Reports whether the string holds a null character.
pub fn contains_nul(s: &str) -> (b: bool)
    ensures
        b == has_nul(s@),
{
    let len = s.unicode_len();
    let mut i: usize = 0;
    while i < len
        invariant
            len == s@.len(),
            i <= len,
            forall|j: int| 0 <= j < i ==> s@[j] != '\0',
        decreases len - i,
    {
        if s.get_char(i) == '\0' {
            return true;
        }
        i = i + 1;
    }
    false
}

/// One extension to load: a shared-library path and an optional entry-point
/// symbol. When the entry point is absent, the engine derives a default one
/// from the file name.
#[derive(Debug, Clone)]
pub struct ExtensionRequest {
    /// Path to the shared library file containing the extension.
    pub path: String,
    /// Optional name of the extension's entry point function.
    pub entry_point: Option<String>,
}

impl ExtensionRequest {
    /// The path can be represented as a native string.
    pub open spec fn path_ok(self) -> bool {
        !has_nul(self.path@)
    }

    /// The entry point, when present, can be represented as a native string.
    pub open spec fn entry_point_ok(self) -> bool {
        self.entry_point matches Some(ep) ==> !has_nul(ep@)
    }

    /// Both components can be represented as native strings.
    pub open spec fn valid(self) -> bool {
        self.path_ok() && self.entry_point_ok()
    }

    /// Builds a request from a path and an optional entry point.
    pub fn new(path: String, entry_point: Option<String>) -> (r: ExtensionRequest)
        ensures
            r.path == path,
            r.entry_point == entry_point,
    {
        ExtensionRequest { path, entry_point }
    }

    /// Checks this request, reporting the first offending component: the
    /// path is examined before the entry point.
    pub fn validate(&self) -> (r: Result<(), LoadExtensionError>)
        ensures
            r == self.spec_validate(),
            r is Ok <==> self.valid(),
    {
        if contains_nul(self.path.as_str()) {
            return Err(LoadExtensionError::InvalidPath);
        }
        match &self.entry_point {
            Some(ep) => {
                if contains_nul(ep.as_str()) {
                    return Err(LoadExtensionError::InvalidEntryPoint);
                }
            },
            None => {},
        }
        Ok(())
    }

    /// The verdict `validate` returns for this request.
    pub open spec fn spec_validate(self) -> Result<(), LoadExtensionError> {
        if !self.path_ok() {
            Err(LoadExtensionError::InvalidPath)
        } else if !self.entry_point_ok() {
            Err(LoadExtensionError::InvalidEntryPoint)
        } else {
            Ok(())
        }
    }
}

/// Every request in the batch is representable in native string form.
pub open spec fn all_valid(reqs: Seq<ExtensionRequest>) -> bool {
    forall|i: int| 0 <= i < reqs.len() ==> (#[trigger] reqs[i]).valid()
}

/// The verdict of validating a batch front to back: the first malformed
/// request decides the error, and within a request the path is examined
/// before the entry point.
pub open spec fn validation_verdict(reqs: Seq<ExtensionRequest>) -> Result<
    (),
    LoadExtensionError,
>
    decreases reqs.len(),
{
    if reqs.len() == 0 {
        Ok(())
    } else if reqs[0].spec_validate() is Err {
        reqs[0].spec_validate()
    } else {
        validation_verdict(reqs.drop_first())
    }
}

/// Validating a batch succeeds exactly when every request is valid.
pub proof fn lemma_verdict_ok_iff_all_valid(reqs: Seq<ExtensionRequest>)
    ensures
        validation_verdict(reqs) is Ok <==> all_valid(reqs),
    decreases reqs.len(),
{
    if reqs.len() > 0 {
        lemma_verdict_ok_iff_all_valid(reqs.drop_first());
        if reqs[0].valid() && all_valid(reqs.drop_first()) {
            assert forall|i: int| 0 <= i < reqs.len() implies (#[trigger] reqs[i]).valid() by {
                if i > 0 {
                    assert(reqs.drop_first()[i - 1] == reqs[i]);
                }
            }
        }
        if all_valid(reqs) {
            assert forall|i: int| 0 <= i < reqs.drop_first().len() implies (#[trigger] reqs
                .drop_first()[i]).valid() by {
                assert(reqs.drop_first()[i] == reqs[i + 1]);
            }
        }
    }
}

/// The verdict of a batch whose first `k` requests are valid is decided by
/// the rest of the batch.
proof fn lemma_verdict_skip(reqs: Seq<ExtensionRequest>, k: int)
    requires
        0 <= k <= reqs.len(),
        forall|j: int| 0 <= j < k ==> (#[trigger] reqs[j]).valid(),
    ensures
        validation_verdict(reqs) == validation_verdict(reqs.skip(k)),
    decreases k,
{
    if k == 0 {
        assert(reqs.skip(0) =~= reqs);
    } else {
        lemma_verdict_skip(reqs, k - 1);
        assert(reqs.skip(k - 1).len() > 0);
        assert(reqs.skip(k - 1)[0] == reqs[k - 1]);
        assert(reqs[k - 1].valid());
        assert(reqs.skip(k - 1)[0].spec_validate() is Ok);
        assert(validation_verdict(reqs.skip(k - 1)) == validation_verdict(
            reqs.skip(k - 1).drop_first(),
        ));
        assert(reqs.skip(k - 1).drop_first() =~= reqs.skip(k));
    }
}

/// The first malformed request decides the batch's validation error: when
/// the requests before position `k` are valid and the one at `k` is not,
/// the batch's verdict is exactly that request's own verdict.
pub proof fn lemma_verdict_first_invalid(reqs: Seq<ExtensionRequest>, k: int)
    requires
        0 <= k < reqs.len(),
        forall|j: int| 0 <= j < k ==> (#[trigger] reqs[j]).valid(),
        !reqs[k].valid(),
    ensures
        validation_verdict(reqs) == reqs[k].spec_validate(),
{
    lemma_verdict_skip(reqs, k);
    assert(reqs.skip(k)[0] == reqs[k]);
}

/// Validates every request in the batch up front, before any native call is
/// made: the first malformed request decides the error.
pub fn validate_requests(reqs: &Vec<ExtensionRequest>) -> (r: Result<(), LoadExtensionError>)
    ensures
        r == validation_verdict(reqs@),
        r is Ok <==> all_valid(reqs@),
{
    proof {
        lemma_verdict_ok_iff_all_valid(reqs@);
    }
    let n = reqs.len();
    let mut i: usize = 0;
    while i < n
        invariant
            n == reqs@.len(),
            i <= n,
            forall|j: int| 0 <= j < i ==> (#[trigger] reqs@[j]).valid(),
        decreases n - i,
    {
        let verdict = reqs[i].validate();
        if let Err(e) = verdict {
            proof {
                lemma_verdict_skip(reqs@, i as int);
                assert(reqs@.skip(i as int)[0] == reqs@[i as int]);
            }
            return Err(e);
        }
        i = i + 1;
    }
    proof {
        lemma_verdict_skip(reqs@, n as int);
        assert(reqs@.skip(n as int).len() == 0);
    }
    Ok(())
}

} // verus!
