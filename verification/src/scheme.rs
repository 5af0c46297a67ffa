//! The registered custom URL scheme and its validator.

use vstd::prelude::*;

verus! {

/// The application's registered custom scheme prefix, the one literal that
/// decides which URLs belong to this application.
pub open spec fn scheme_prefix() -> Seq<char> {
    "com.fox5352.foxtrail_frontend://"@
}

/// A URL is a deep link of this application exactly when it starts with the
/// registered scheme prefix.  The match is a plain character-for-character
/// prefix comparison: no case folding, no URL normalization, no
/// percent-decoding.  Whatever follows the prefix, even nothing at all, is
/// not inspected.
pub open spec fn is_deep_link(url: Seq<char>) -> bool {
    scheme_prefix().is_prefix_of(url)
}

/// The registered scheme prefix as a string slice, for executable
/// comparisons and for the host wiring.
pub fn scheme_prefix_str() -> (r: &'static str)
    ensures
        r@ == scheme_prefix(),
{
    "com.fox5352.foxtrail_frontend://"
}

/// Plain prefix match: true exactly when `prefix@` is a prefix of `s@`.
pub fn str_starts_with(s: &str, prefix: &str) -> (r: bool)
    ensures
        r == prefix@.is_prefix_of(s@),
{
    let n = prefix.unicode_len();
    let m = s.unicode_len();
    if m < n {
        return false;
    }
    let mut i: usize = 0;
    while i < n
        invariant
            n == prefix@.len(),
            m == s@.len(),
            n <= m,
            i <= n,
            forall|j: int| 0 <= j < i ==> s@[j] == prefix@[j],
        decreases n - i,
    {
        if s.get_char(i) != prefix.get_char(i) {
            proof {
                assert(s@.subrange(0, n as int)[i as int] == s@[i as int]);
            }
            return false;
        }
        i += 1;
    }
    proof {
        assert(prefix@ =~= s@.subrange(0, n as int));
    }
    true
}

/// The scheme validator: accept a candidate URL exactly when it begins with
/// the registered scheme prefix.
pub fn accepts_scheme(url: &str) -> (r: bool)
    ensures
        r == is_deep_link(url@),
{
    str_starts_with(url, scheme_prefix_str())
}

/// The empty string is never a deep link: the registered prefix is not empty.
pub proof fn lemma_empty_url_rejected()
    ensures
        !is_deep_link(Seq::<char>::empty()),
{
    reveal_strlit("com.fox5352.foxtrail_frontend://");
}

/// A URL that passed the scheme validator: it is known to start with the
/// registered scheme prefix, and only such values reach the emitter.
pub struct ValidatedDeepLink {
    url: String,
}

impl View for ValidatedDeepLink {
    type V = Seq<char>;

    closed spec fn view(&self) -> Seq<char> {
        self.url@
    }
}

impl ValidatedDeepLink {
    /// Every value of this type carries a URL of the registered scheme.
    pub open spec fn wf(&self) -> bool {
        is_deep_link(self@)
    }

    /// Validate a candidate URL: accepted, unmodified, exactly when it
    /// starts with the registered scheme prefix.
    pub fn new(url: String) -> (r: Option<ValidatedDeepLink>)
        ensures
            match r {
                Some(link) => is_deep_link(url@) && link@ == url@ && link.wf(),
                None => !is_deep_link(url@),
            },
    {
        if accepts_scheme(url.as_str()) {
            Some(ValidatedDeepLink { url })
        } else {
            None
        }
    }

    /// The validated URL, verbatim.
    pub fn url_str(&self) -> (r: &str)
        ensures
            r@ == self@,
    {
        self.url.as_str()
    }

    /// Give the validated URL back, verbatim.
    pub fn into_url(self) -> (r: String)
        ensures
            r@ == self@,
    {
        self.url
    }
}

} // verus!
