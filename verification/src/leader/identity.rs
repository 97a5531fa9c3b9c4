//! The identity under which a replica holds the lease.
use crate::leader::lease::text;
use crate::outside::drawn;
use vstd::prelude::*;

verus! {

/// Where a replica's identity comes from.
#[derive(Debug)]
pub enum Identity {
    /// The name of the pod, which Kubernetes puts in `$HOSTNAME`, or a fresh UUID where
    /// that is not set. This is the default.
    PodNameOrUuid,
    /// A fresh UUID.
    Generated,
    /// This very text.
    Custom(String),
}

/// The view of an [`Identity`].
#[verifier::ext_equal]
pub ghost enum IdentityView {
    PodNameOrUuid,
    Generated,
    Custom(Seq<char>),
}

impl View for Identity {
    type V = IdentityView;

    open spec fn view(&self) -> IdentityView {
        match *self {
            Identity::PodNameOrUuid => IdentityView::PodNameOrUuid,
            Identity::Generated => IdentityView::Generated,
            Identity::Custom(name) => IdentityView::Custom(name@),
        }
    }
}

impl IdentityView {
    /// Whether the identity is a fresh UUID, when `$HOSTNAME` is `hostname`.
    pub open spec fn needs_uuid(self, hostname: Option<Seq<char>>) -> bool {
        match self {
            IdentityView::PodNameOrUuid => hostname is None,
            IdentityView::Generated => true,
            IdentityView::Custom(_) => false,
        }
    }

    /// The identity, when `$HOSTNAME` is `hostname` and a fresh UUID is `uuid`.
    pub open spec fn resolved(self, hostname: Option<Seq<char>>, uuid: Seq<char>) -> Seq<char> {
        match self {
            IdentityView::PodNameOrUuid => match hostname {
                Some(pod) => pod,
                None => uuid,
            },
            IdentityView::Generated => uuid,
            IdentityView::Custom(name) => name,
        }
    }
}

/// Whether `c` is a hexadecimal digit in lower case.
pub open spec fn is_lower_hex(c: char) -> bool {
    ('0' <= c && c <= '9') || ('a' <= c && c <= 'f')
}

/// Whether `s` is a random UUID in its usual form: 32 hexadecimal digits in lower case, in
/// groups of 8, 4, 4, 4 and 12 with hyphens between. The third group starts with the
/// version, 4; the fourth with the variant, one of 8, 9, a and b.
pub open spec fn is_uuid_v4(s: Seq<char>) -> bool {
    &&& s.len() == 36
    &&& s[8] == '-' && s[13] == '-' && s[18] == '-' && s[23] == '-'
    &&& s[14] == '4'
    &&& s[19] == '8' || s[19] == '9' || s[19] == 'a' || s[19] == 'b'
    &&& forall|i: int|
        0 <= i < 36 && i != 8 && i != 13 && i != 18 && i != 23 ==> is_lower_hex(#[trigger] s[i])
}

/// Calls `uuid::Uuid::new_v4` and writes the UUID out in its usual form. Which UUID it is,
/// is left to chance, but for the mark that it was drawn; that no two are alike is likely, and
/// left unsaid. A system that has no
/// random bytes to give makes `uuid` panic.
#[verifier::external_body]
fn new_uuid() -> (uuid: String)
    ensures
        is_uuid_v4(uuid@),
        drawn(uuid@),
{
    uuid::Uuid::new_v4().to_string()
}

impl Identity {
    /// The identity, when `$HOSTNAME` is `hostname` and a fresh UUID is `uuid`.
    pub fn resolve_with(self, hostname: Option<String>, uuid: String) -> (identity: String)
        ensures
            identity@ == self@.resolved(text(hostname), uuid@),
            self matches Identity::PodNameOrUuid ==> (hostname matches Some(pod) ==> identity@
                == pod@),
            self matches Identity::PodNameOrUuid ==> (hostname is None ==> identity@ == uuid@),
            self matches Identity::Generated ==> identity@ == uuid@,
            self matches Identity::Custom(name) ==> identity@ == name@,
    {
        match self {
            Identity::PodNameOrUuid => match hostname {
                Some(pod) => pod,
                None => uuid,
            },
            Identity::Generated => uuid,
            Identity::Custom(name) => name,
        }
    }

    /// Whether the identity is a fresh UUID, when `$HOSTNAME` is `hostname`.
    pub fn needs_uuid(&self, hostname: &Option<String>) -> (needed: bool)
        ensures
            needed == self@.needs_uuid(text(*hostname)),
    {
        match self {
            Identity::PodNameOrUuid => hostname.is_none(),
            Identity::Generated => true,
            Identity::Custom(_) => false,
        }
    }

    /// The identity, when `$HOSTNAME` is `hostname`. A UUID is made up only where the
    /// identity is one.
    pub fn resolve(self, hostname: Option<String>) -> (identity: String)
        ensures
            self@.needs_uuid(text(hostname)) ==> is_uuid_v4(identity@) && drawn(identity@),
            identity@ == self@.resolved(text(hostname), identity@),
            self matches Identity::PodNameOrUuid ==> (hostname matches Some(pod) ==> identity@
                == pod@),
            self matches Identity::PodNameOrUuid ==> (hostname is None ==> drawn(identity@)),
            self matches Identity::Generated ==> drawn(identity@),
            self matches Identity::Custom(name) ==> identity@ == name@,
    {
        let uuid = if self.needs_uuid(&hostname) {
            new_uuid()
        } else {
            String::new()
        };
        self.resolve_with(hostname, uuid)
    }
}

impl From<&str> for Identity {
    fn from(name: &str) -> (identity: Identity)
        ensures
            identity@ == IdentityView::Custom(name@),
    {
        Identity::Custom(name.to_owned())
    }
}

impl vstd::std_specs::convert::FromSpecImpl<&str> for Identity {
    open spec fn obeys_from_spec() -> bool {
        false
    }

    open spec fn from_spec(name: &str) -> Identity {
        choose|identity: Identity| identity@ == IdentityView::Custom(name@)
    }
}

impl From<String> for Identity {
    fn from(name: String) -> (identity: Identity)
        ensures
            identity@ == IdentityView::Custom(name@),
    {
        Identity::Custom(name)
    }
}

impl vstd::std_specs::convert::FromSpecImpl<String> for Identity {
    open spec fn obeys_from_spec() -> bool {
        true
    }

    open spec fn from_spec(name: String) -> Identity {
        Identity::Custom(name)
    }
}

} // verus!
