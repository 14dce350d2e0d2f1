//! The organization aggregate and its value objects: identifiers, the
//! validated name, the URL slug and the member role.

use vstd::prelude::*;
use crate::organizations::errors::OrgDomainError;
use crate::time::{clock_reading, now, Timestamp};
use crate::text::{
    ascii_lower, chars_of, name_fits, str_equals, to_lowercase, trim,
    unicode_lowercase, validated_name, NameProblem,
};

verus! {

/// Organization ID - wrapper around a UUID string.
#[derive(Debug, Clone, PartialEq, Eq, Hash)]
pub struct OrgId(String);

impl View for OrgId {
    type V = Seq<char>;

    closed spec fn view(&self) -> Seq<char> {
        self.0@
    }
}

impl From<String> for OrgId {
    fn from(id: String) -> (r: Self)
        ensures
            r@ == id@,
    {
        OrgId(id)
    }
}

impl vstd::std_specs::convert::FromSpecImpl<String> for OrgId {
    open spec fn obeys_from_spec() -> bool {
        true
    }

    closed spec fn from_spec(id: String) -> Self {
        OrgId(id)
    }
}

impl OrgId {
    pub fn new(id: String) -> (r: Self)
        ensures
            r@ == id@,
    {
        OrgId(id)
    }

    pub fn as_str(&self) -> (r: &str)
        ensures
            r@ == self@,
    {
        self.0.as_str()
    }

    pub fn into_inner(self) -> (r: String)
        ensures
            r@ == self@,
    {
        self.0
    }
}

/// Member ID - wrapper around a UUID string.
#[derive(Debug, Clone, PartialEq, Eq, Hash)]
pub struct MemberId(String);

impl View for MemberId {
    type V = Seq<char>;

    closed spec fn view(&self) -> Seq<char> {
        self.0@
    }
}

impl From<String> for MemberId {
    fn from(id: String) -> (r: Self)
        ensures
            r@ == id@,
    {
        MemberId(id)
    }
}

impl vstd::std_specs::convert::FromSpecImpl<String> for MemberId {
    open spec fn obeys_from_spec() -> bool {
        true
    }

    closed spec fn from_spec(id: String) -> Self {
        MemberId(id)
    }
}

impl MemberId {
    pub fn new(id: String) -> (r: Self)
        ensures
            r@ == id@,
    {
        MemberId(id)
    }

    pub fn as_str(&self) -> (r: &str)
        ensures
            r@ == self@,
    {
        self.0.as_str()
    }

    pub fn into_inner(self) -> (r: String)
        ensures
            r@ == self@,
    {
        self.0
    }
}

/// Organization Name - validated name (trimmed, 1 to 100 characters).
#[derive(Debug, Clone, PartialEq, Eq)]
pub struct OrgName(String);

impl View for OrgName {
    type V = Seq<char>;

    closed spec fn view(&self) -> Seq<char> {
        self.0@
    }
}

impl OrgName {
    /// A name is what remains of the input after trimming; it must be
    /// non-empty and at most 100 characters long.
    pub open spec fn wf(&self) -> bool {
        name_fits(self@) && trim(self@) == self@
    }

    pub fn new(name: String) -> (r: Result<Self, OrgDomainError>)
        ensures
            r is Ok <==> name_fits(trim(name@)),
            r matches Ok(n) ==> n@ == trim(name@) && n.wf(),
            r matches Err(e) ==> e matches OrgDomainError::InvalidOrgName(m) && m@ == (if trim(
                name@,
            ).len() == 0 {
                "name cannot be empty"@
            } else {
                "name cannot exceed 100 characters"@
            }),
    {
        match validated_name(name.as_str()) {
            Ok(n) => Ok(OrgName(n)),
            Err(NameProblem::Empty) => Err(
                OrgDomainError::InvalidOrgName("name cannot be empty".to_string()),
            ),
            Err(NameProblem::TooLong) => Err(
                OrgDomainError::InvalidOrgName("name cannot exceed 100 characters".to_string()),
            ),
        }
    }

    pub fn as_str(&self) -> (r: &str)
        ensures
            r@ == self@,
    {
        self.0.as_str()
    }

    pub fn into_inner(self) -> (r: String)
        ensures
            r@ == self@,
    {
        self.0
    }
}

/// Lowercase ASCII letters and digits: the characters a slug keeps from a
/// name.
pub open spec fn slug_alnum(c: char) -> bool {
    ('a' <= c && c <= 'z') || ('0' <= c && c <= '9')
}

/// The characters of `cs` in which every maximal run of characters that are
/// not lowercase ASCII letters or digits stands as one hyphen, with none at
/// either end; `started` says whether a character was already kept,
/// `pending` whether a run of separators is waiting to be written.
pub open spec fn hyphenate_from(cs: Seq<char>, started: bool, pending: bool) -> Seq<char>
    decreases cs.len(),
{
    if cs.len() == 0 {
        Seq::empty()
    } else if slug_alnum(cs[0]) {
        (if started && pending {
            seq!['-']
        } else {
            Seq::empty()
        }) + seq![cs[0]] + hyphenate_from(cs.drop_first(), true, false)
    } else {
        hyphenate_from(cs.drop_first(), started, true)
    }
}

/// The runs of lowercase ASCII letters and digits of `cs`, joined by single
/// hyphens.
pub open spec fn hyphenate(cs: Seq<char>) -> Seq<char> {
    hyphenate_from(cs, false, false)
}

/// The slug generated from a name and a suffix: the runs of ASCII letters
/// and digits of the lowercase name joined by hyphens, then a hyphen and the
/// suffix.
pub open spec fn generated_slug(name: Seq<char>, suffix: Seq<char>) -> Seq<char> {
    hyphenate(unicode_lowercase(name)) + seq!['-'] + suffix
}

/// `s` without its hyphens.
pub open spec fn without_hyphens(s: Seq<char>) -> Seq<char>
    decreases s.len(),
{
    if s.len() == 0 {
        s
    } else {
        (if s[0] == '-' {
            Seq::empty()
        } else {
            seq![s[0]]
        }) + without_hyphens(s.drop_first())
    }
}

/// The lowercase ASCII letters and the digits of `s`, in order.
pub open spec fn ascii_letters_and_digits(s: Seq<char>) -> Seq<char>
    decreases s.len(),
{
    if s.len() == 0 {
        s
    } else {
        (if ('a' <= s[0] && s[0] <= 'z') || ('0' <= s[0] && s[0] <= '9') {
            seq![s[0]]
        } else {
            Seq::empty()
        }) + ascii_letters_and_digits(s.drop_first())
    }
}

proof fn lemma_without_hyphens_add(a: Seq<char>, b: Seq<char>)
    ensures
        without_hyphens(a + b) == without_hyphens(a) + without_hyphens(b),
    decreases a.len(),
{
    if a.len() == 0 {
        assert(a + b == b);
    } else {
        assert((a + b).drop_first() == a.drop_first() + b);
        lemma_without_hyphens_add(a.drop_first(), b);
        assert((a + b)[0] == a[0]);
    }
}

proof fn lemma_hyphenate_from_keeps(cs: Seq<char>, started: bool, pending: bool)
    ensures
        without_hyphens(hyphenate_from(cs, started, pending)) == ascii_letters_and_digits(cs),
    decreases cs.len(),
{
    if cs.len() > 0 {
        lemma_hyphenate_from_keeps(cs.drop_first(), slug_alnum(cs[0]) || started, !slug_alnum(
            cs[0],
        ));
        if slug_alnum(cs[0]) {
            let pre: Seq<char> = if started && pending {
                seq!['-']
            } else {
                Seq::empty()
            };
            let rest = hyphenate_from(cs.drop_first(), true, false);
            lemma_without_hyphens_add(pre + seq![cs[0]], rest);
            lemma_without_hyphens_add(pre, seq![cs[0]]);
            assert(without_hyphens(pre) == Seq::<char>::empty()) by {
                assert(without_hyphens(Seq::<char>::empty()) == Seq::<char>::empty());
                if started && pending {
                    assert(pre[0] == '-');
                    assert(pre.drop_first() == Seq::<char>::empty());
                }
            }
            assert(without_hyphens(seq![cs[0]]) == seq![cs[0]]) by {
                assert(seq![cs[0]].drop_first() == Seq::<char>::empty());
            }
        }
    }
}

/// A generated slug keeps exactly the lowercase ASCII letters and digits of
/// the text it is made from, in order: taking the hyphens out of
/// `hyphenate(cs)` leaves the letters and digits of `cs`.
pub proof fn lemma_hyphenate_keeps_letters_and_digits(cs: Seq<char>)
    ensures
        without_hyphens(hyphenate(cs)) == ascii_letters_and_digits(cs),
{
    lemma_hyphenate_from_keeps(cs, false, false);
}

/// Whether no two hyphens stand side by side in `s`.
pub open spec fn no_double_hyphen(s: Seq<char>) -> bool {
    forall|i: int, j: int|
        #![trigger s[i], s[j]]
        0 <= i && j == i + 1 && j < s.len() ==> !(s[i] == '-' && s[j] == '-')
}

/// Whether every character of `s` is a lowercase ASCII letter or a digit.
pub open spec fn slug_suffix(s: Seq<char>) -> bool {
    forall|i: int| 0 <= i < s.len() ==> slug_alnum(#[trigger] s[i])
}

/// The characters a stored slug may hold: lowercase ASCII letters, digits
/// and hyphens.
pub open spec fn slug_char(c: char) -> bool {
    ('a' <= c && c <= 'z') || ('0' <= c && c <= '9') || c == '-'
}

/// Whether a text is accepted as a stored slug.
pub open spec fn valid_slug(s: Seq<char>) -> bool {
    s.len() > 0 && forall|i: int| 0 <= i < s.len() ==> slug_char(#[trigger] s[i])
}

/// Organization Slug - URL-safe identifier.
#[derive(Debug, Clone, PartialEq, Eq)]
pub struct OrgSlug(String);

impl View for OrgSlug {
    type V = Seq<char>;

    closed spec fn view(&self) -> Seq<char> {
        self.0@
    }
}

impl OrgSlug {
    /// Generate a slug from an organization name with a random suffix:
    /// "My Cool Org" and "x7k2" give "my-cool-org-x7k2".
    ///
    /// Only ASCII letters and digits of the name are kept, so with a suffix
    /// of lowercase letters and digits the slug is always one that
    /// `from_string` accepts, and no two hyphens stand together in it.
    pub fn generate(name: &OrgName, suffix: &str) -> (r: Self)
        ensures
            r@ == generated_slug(name@, suffix@),
            vstd::utf8::is_ascii_chars(name@) ==> r@ == hyphenate(ascii_lower(name@)) + seq!['-']
                + suffix@,
            slug_suffix(suffix@) ==> valid_slug(r@) && no_double_hyphen(r@),
            r@.len() > suffix@.len(),
            r@.skip(r@.len() - suffix@.len()) == suffix@,
            r@[r@.len() - suffix@.len() - 1] == '-',
            without_hyphens(r@.take(r@.len() - suffix@.len() - 1)) == ascii_letters_and_digits(
                unicode_lowercase(name@),
            ),
    {
        proof {
            lemma_hyphenate_keeps_letters_and_digits(unicode_lowercase(name@));
        }
        let lowered = to_lowercase(name.as_str());
        let cs = chars_of(lowered.as_str());
        let n = cs.len();
        let mut out: Vec<char> = Vec::new();
        let mut started = false;
        let mut pending = false;
        let mut i: usize = 0;
        assert(cs@.skip(0) == cs@);
        assert(out@ + hyphenate(cs@) == hyphenate(cs@));
        while i < n
            invariant
                n == cs@.len(),
                i <= n,
                out@ + hyphenate_from(cs@.skip(i as int), started, pending) == hyphenate(cs@),
                forall|k: int| 0 <= k < out@.len() ==> slug_char(#[trigger] out@[k]),
                no_double_hyphen(out@),
                out@.len() > 0 ==> out@.last() != '-',
                started <==> out@.len() > 0,
            decreases n - i,
        {
            let c = cs[i];
            let ghost rest = cs@.skip(i as int);
            assert(rest[0] == c);
            assert(rest.drop_first() == cs@.skip(i + 1));
            if ('a' <= c && c <= 'z') || ('0' <= c && c <= '9') {
                let ghost before = out@;
                if started && pending {
                    out.push('-');
                }
                out.push(c);
                assert(out@ + hyphenate_from(cs@.skip(i + 1), true, false) == before
                    + hyphenate_from(rest, started, pending));
                started = true;
                pending = false;
            } else {
                pending = true;
            }
            i = i + 1;
        }
        assert(cs@.skip(n as int).len() == 0);
        assert(out@ == hyphenate(cs@));
        out.push('-');
        let sfx = chars_of(suffix);
        let m = sfx.len();
        let ghost base = out@;
        for j in 0..m
            invariant
                m == sfx@.len(),
                sfx@ == suffix@,
                out@ == base + sfx@.take(j as int),
                out@.len() > 0,
                slug_suffix(suffix@) ==> forall|k: int|
                    0 <= k < out@.len() ==> slug_char(#[trigger] out@[k]),
                slug_suffix(suffix@) ==> no_double_hyphen(out@),
        {
            out.push(sfx[j]);
            assert(sfx@.take(j + 1) == sfx@.take(j as int).push(sfx@[j as int]));
        }
        assert(sfx@.take(m as int) == sfx@);
        proof {
            let h = hyphenate(cs@);
            assert(out@ == h.push('-') + suffix@);
            assert(out@.take(out@.len() - suffix@.len() - 1) =~= h);
            assert(out@.skip(out@.len() - suffix@.len()) =~= suffix@);
        }
        OrgSlug(crate::text::string_from_chars(out.as_slice()))
    }

    /// Create from an existing slug (reconstruction from storage).
    pub fn from_string(slug: String) -> (r: Result<Self, OrgDomainError>)
        ensures
            r is Ok <==> valid_slug(slug@),
            r matches Ok(s) ==> s@ == slug@,
            r matches Err(e) ==> e matches OrgDomainError::InvalidOrgSlug(m) && m@ == (if slug@.len()
                == 0 {
                "slug cannot be empty"@
            } else {
                "slug must contain only lowercase letters, numbers, and hyphens"@
            }),
    {
        if slug.as_str().is_empty() {
            return Err(OrgDomainError::InvalidOrgSlug("slug cannot be empty".to_string()));
        }
        let cs = chars_of(slug.as_str());
        let n = cs.len();
        for i in 0..n
            invariant
                n == slug@.len(),
                cs@ == slug@,
                forall|k: int| 0 <= k < i ==> slug_char(#[trigger] slug@[k]),
        {
            let c = cs[i];
            if !(('a' <= c && c <= 'z') || ('0' <= c && c <= '9') || c == '-') {
                return Err(
                    OrgDomainError::InvalidOrgSlug(
                        "slug must contain only lowercase letters, numbers, and hyphens".to_string(),
                    ),
                );
            }
        }
        Ok(OrgSlug(slug))
    }

    pub fn as_str(&self) -> (r: &str)
        ensures
            r@ == self@,
    {
        self.0.as_str()
    }

    pub fn into_inner(self) -> (r: String)
        ensures
            r@ == self@,
    {
        self.0
    }
}

/// Organization Role - defines permission levels.
#[derive(Debug, Clone, Copy, PartialEq, Eq, Structural)]
pub enum OrgRole {
    /// Full control, can delete the organization.
    Owner,
    /// Can manage members and update the organization.
    Admin,
    /// Read access, limited actions.
    Member,
}

/// The role written as text, in lowercase.
pub open spec fn role_text(r: OrgRole) -> Seq<char> {
    match r {
        OrgRole::Owner => "owner"@,
        OrgRole::Admin => "admin"@,
        OrgRole::Member => "member"@,
    }
}

/// The role that a lowercase text names, if any.
pub open spec fn role_named(l: Seq<char>) -> Option<OrgRole> {
    if l == "owner"@ {
        Some(OrgRole::Owner)
    } else if l == "admin"@ {
        Some(OrgRole::Admin)
    } else if l == "member"@ {
        Some(OrgRole::Member)
    } else {
        None
    }
}

/// Whether a role may manage members: owners and admins.
pub open spec fn manages_members(r: OrgRole) -> bool {
    r == OrgRole::Owner || r == OrgRole::Admin
}

/// Whether a role may manage admins: owners only.
pub open spec fn manages_admins(r: OrgRole) -> bool {
    r == OrgRole::Owner
}

/// Whether a role may delete the organization: owners only.
pub open spec fn deletes_org(r: OrgRole) -> bool {
    r == OrgRole::Owner
}

/// Whether a role may change the organization's settings: owners and admins.
pub open spec fn updates_org(r: OrgRole) -> bool {
    r == OrgRole::Owner || r == OrgRole::Admin
}

impl OrgRole {
    /// Parses a role, ignoring case.
    pub fn from_str(s: &str) -> (r: Result<Self, OrgDomainError>)
        ensures
            match role_named(unicode_lowercase(s@)) {
                Some(role) => r == Ok::<OrgRole, OrgDomainError>(role),
                None => r matches Err(e) && e matches OrgDomainError::InvalidRole(m) && m@
                    == "unknown role: "@ + s@,
            },
            vstd::utf8::is_ascii_chars(s@) ==> match role_named(ascii_lower(s@)) {
                Some(role) => r == Ok::<OrgRole, OrgDomainError>(role),
                None => r is Err,
            },
    {
        let lowered = to_lowercase(s);
        let l = lowered.as_str();
        if str_equals(l, "owner") {
            Ok(OrgRole::Owner)
        } else if str_equals(l, "admin") {
            Ok(OrgRole::Admin)
        } else if str_equals(l, "member") {
            Ok(OrgRole::Member)
        } else {
            Err(OrgDomainError::InvalidRole("unknown role: ".to_string().concat(s)))
        }
    }

    pub fn as_str(&self) -> (r: &'static str)
        ensures
            r@ == role_text(*self),
            *self == OrgRole::Owner ==> r@ == "owner"@,
            *self == OrgRole::Admin ==> r@ == "admin"@,
            *self == OrgRole::Member ==> r@ == "member"@,
    {
        match self {
            OrgRole::Owner => "owner",
            OrgRole::Admin => "admin",
            OrgRole::Member => "member",
        }
    }

    /// Can add and remove members (admin and owner).
    pub fn can_manage_members(&self) -> (r: bool)
        ensures
            r == manages_members(*self),
            r <==> *self != OrgRole::Member,
    {
        matches!(self, OrgRole::Owner | OrgRole::Admin)
    }

    /// Can manage admins (owner only).
    pub fn can_manage_admins(&self) -> (r: bool)
        ensures
            r == manages_admins(*self),
            r <==> *self == OrgRole::Owner,
    {
        matches!(self, OrgRole::Owner)
    }

    /// Can delete the organization (owner only).
    pub fn can_delete_org(&self) -> (r: bool)
        ensures
            r == deletes_org(*self),
            r <==> *self == OrgRole::Owner,
    {
        matches!(self, OrgRole::Owner)
    }

    /// Can update the organization settings (admin and owner).
    pub fn can_update_org(&self) -> (r: bool)
        ensures
            r == updates_org(*self),
            r <==> *self != OrgRole::Member,
    {
        matches!(self, OrgRole::Owner | OrgRole::Admin)
    }
}

/// What an organization holds, as plain values.
pub struct OrganizationView {
    pub id: Seq<char>,
    pub name: Seq<char>,
    pub slug: Seq<char>,
    pub is_personal: bool,
    pub created_at: Timestamp,
    pub updated_at: Timestamp,
    pub deleted_at: Option<Timestamp>,
}

/// What soft-deleting an organization at `at` gives: a personal
/// organization cannot be deleted, a deleted one cannot be deleted again,
/// and any other is marked deleted at `at`.
pub open spec fn org_after_delete(v: OrganizationView, at: Timestamp) -> Result<
    OrganizationView,
    OrgDomainError,
> {
    if v.is_personal {
        Err(OrgDomainError::CannotDeletePersonalOrg)
    } else if v.deleted_at is Some {
        Err(OrgDomainError::OrgAlreadyDeleted)
    } else {
        Ok(OrganizationView { deleted_at: Some(at), updated_at: at, ..v })
    }
}

/// Organization - aggregate root.
#[derive(Debug, Clone)]
pub struct Organization {
    id: OrgId,
    name: OrgName,
    slug: OrgSlug,
    is_personal: bool,
    created_at: Timestamp,
    updated_at: Timestamp,
    deleted_at: Option<Timestamp>,
}

impl View for Organization {
    type V = OrganizationView;

    closed spec fn view(&self) -> OrganizationView {
        OrganizationView {
            id: self.id@,
            name: self.name@,
            slug: self.slug@,
            is_personal: self.is_personal,
            created_at: self.created_at,
            updated_at: self.updated_at,
            deleted_at: self.deleted_at,
        }
    }
}

impl Organization {
    /// A fresh organization created at `at`: not personal, not deleted.
    pub fn new_at(id: OrgId, name: OrgName, slug: OrgSlug, at: Timestamp) -> (r: Self)
        ensures
            r@ == (OrganizationView {
                id: id@,
                name: name@,
                slug: slug@,
                is_personal: false,
                created_at: at,
                updated_at: at,
                deleted_at: None,
            }),
    {
        Organization {
            id,
            name,
            slug,
            is_personal: false,
            created_at: at,
            updated_at: at,
            deleted_at: None,
        }
    }

    /// Create a new organization, stamped with the current time.
    pub fn new(id: OrgId, name: OrgName, slug: OrgSlug) -> (r: Self)
        ensures
            r@.id == id@,
            r@.name == name@,
            r@.slug == slug@,
            !r@.is_personal,
            r@.created_at == r@.updated_at,
            r@.deleted_at is None,
            clock_reading(r@.created_at),
    {
        Organization::new_at(id, name, slug, now())
    }

    /// A fresh personal organization created at `at`.
    pub fn new_personal_at(id: OrgId, name: OrgName, slug: OrgSlug, at: Timestamp) -> (r: Self)
        ensures
            r@ == (OrganizationView {
                id: id@,
                name: name@,
                slug: slug@,
                is_personal: true,
                created_at: at,
                updated_at: at,
                deleted_at: None,
            }),
    {
        Organization {
            id,
            name,
            slug,
            is_personal: true,
            created_at: at,
            updated_at: at,
            deleted_at: None,
        }
    }

    /// Create a new personal organization, stamped with the current time.
    pub fn new_personal(id: OrgId, name: OrgName, slug: OrgSlug) -> (r: Self)
        ensures
            r@.id == id@,
            r@.name == name@,
            r@.slug == slug@,
            r@.is_personal,
            r@.created_at == r@.updated_at,
            r@.deleted_at is None,
            clock_reading(r@.created_at),
    {
        Organization::new_personal_at(id, name, slug, now())
    }

    /// Reconstruct from the persistence layer.
    pub fn reconstruct(
        id: OrgId,
        name: OrgName,
        slug: OrgSlug,
        is_personal: bool,
        created_at: Timestamp,
        updated_at: Timestamp,
        deleted_at: Option<Timestamp>,
    ) -> (r: Self)
        ensures
            r@ == (OrganizationView {
                id: id@,
                name: name@,
                slug: slug@,
                is_personal,
                created_at,
                updated_at,
                deleted_at,
            }),
    {
        Organization { id, name, slug, is_personal, created_at, updated_at, deleted_at }
    }

    pub fn id(&self) -> (r: &OrgId)
        ensures
            r@ == self@.id,
    {
        &self.id
    }

    pub fn name(&self) -> (r: &OrgName)
        ensures
            r@ == self@.name,
    {
        &self.name
    }

    pub fn slug(&self) -> (r: &OrgSlug)
        ensures
            r@ == self@.slug,
    {
        &self.slug
    }

    pub fn is_personal(&self) -> (r: bool)
        ensures
            r == self@.is_personal,
    {
        self.is_personal
    }

    pub fn created_at(&self) -> (r: Timestamp)
        ensures
            r == self@.created_at,
    {
        self.created_at
    }

    pub fn updated_at(&self) -> (r: Timestamp)
        ensures
            r == self@.updated_at,
    {
        self.updated_at
    }

    pub fn deleted_at(&self) -> (r: Option<Timestamp>)
        ensures
            r == self@.deleted_at,
    {
        self.deleted_at
    }

    pub fn is_deleted(&self) -> (r: bool)
        ensures
            r == self@.deleted_at is Some,
    {
        self.deleted_at.is_some()
    }

    /// Rename the organization at time `at`: the name and slug are replaced
    /// and the update time moves to `at`.
    pub fn update_name_at(&mut self, name: OrgName, new_slug: OrgSlug, at: Timestamp)
        ensures
            final(self)@ == (OrganizationView {
                name: name@,
                slug: new_slug@,
                updated_at: at,
                ..old(self)@
            }),
    {
        self.name = name;
        self.slug = new_slug;
        self.updated_at = at;
    }

    /// Update organization name and slug, stamped with the current time.
    pub fn update_name(&mut self, name: OrgName, new_slug: OrgSlug)
        ensures
            final(self)@.id == old(self)@.id,
            final(self)@.name == name@,
            final(self)@.slug == new_slug@,
            final(self)@.is_personal == old(self)@.is_personal,
            final(self)@.created_at == old(self)@.created_at,
            final(self)@.deleted_at == old(self)@.deleted_at,
            final(self)@ == (OrganizationView {
                name: name@,
                slug: new_slug@,
                updated_at: final(self)@.updated_at,
                ..old(self)@
            }),
            clock_reading(final(self)@.updated_at),
    {
        self.update_name_at(name, new_slug, now());
    }

    /// Soft delete at time `at`. A personal organization cannot be deleted,
    /// and a deleted one cannot be deleted again; the organization is then
    /// left as it was.
    pub fn soft_delete_at(&mut self, at: Timestamp) -> (r: Result<(), OrgDomainError>)
        ensures
            match org_after_delete(old(self)@, at) {
                Ok(v) => r is Ok && final(self)@ == v,
                Err(e) => r == Err::<(), OrgDomainError>(e) && final(self)@ == old(self)@,
            },
            old(self)@.is_personal ==> r == Err::<(), OrgDomainError>(
                OrgDomainError::CannotDeletePersonalOrg,
            ),
            !old(self)@.is_personal && old(self)@.deleted_at is Some ==> r == Err::<
                (),
                OrgDomainError,
            >(OrgDomainError::OrgAlreadyDeleted),
            r is Err ==> final(self)@ == old(self)@,
            r is Ok <==> (!old(self)@.is_personal && old(self)@.deleted_at is None),
            r is Ok ==> final(self)@ == (OrganizationView {
                deleted_at: Some(at),
                updated_at: at,
                ..old(self)@
            }),
    {
        if self.is_personal {
            return Err(OrgDomainError::CannotDeletePersonalOrg);
        }
        if self.deleted_at.is_some() {
            return Err(OrgDomainError::OrgAlreadyDeleted);
        }
        self.deleted_at = Some(at);
        self.updated_at = at;
        Ok(())
    }

    /// Soft delete the organization, stamped with the current time.
    pub fn soft_delete(&mut self) -> (r: Result<(), OrgDomainError>)
        ensures
            old(self)@.is_personal ==> r == Err::<(), OrgDomainError>(
                OrgDomainError::CannotDeletePersonalOrg,
            ),
            !old(self)@.is_personal && old(self)@.deleted_at is Some ==> r == Err::<
                (),
                OrgDomainError,
            >(OrgDomainError::OrgAlreadyDeleted),
            r is Err ==> final(self)@ == old(self)@,
            r is Ok <==> (!old(self)@.is_personal && old(self)@.deleted_at is None),
            r is Ok ==> final(self)@.deleted_at is Some && final(self)@.id == old(self)@.id
                && final(self)@.name == old(self)@.name && final(self)@.slug == old(self)@.slug
                && final(self)@.is_personal == old(self)@.is_personal && final(self)@.created_at
                == old(self)@.created_at,
            r is Ok ==> final(self)@ == (OrganizationView {
                deleted_at: Some(final(self)@.updated_at),
                updated_at: final(self)@.updated_at,
                ..old(self)@
            }) && clock_reading(final(self)@.updated_at),
    {
        self.soft_delete_at(now())
    }
}

} // verus!
