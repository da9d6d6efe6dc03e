//! Role-based access control. Permissions are written `resource:action`;
//! the permission `*:*` grants everything.

use vstd::prelude::*;
use vstd::string::*;
use crate::text::{split_on, split_text, views, text_eq};

verus! {

/// A permission: an action on a resource.
#[derive(Debug, Clone)]
pub struct Permission {
    pub resource: String,
    pub action: String,
}

/// The resource and action a permission text names, when it has exactly
/// one `:`.
pub open spec fn parse_permission(text: Seq<char>) -> Option<(Seq<char>, Seq<char>)> {
    let parts = split_on(text, ':');
    if parts.len() == 2 {
        Some((parts[0], parts[1]))
    } else {
        None
    }
}

/// The text of the permission for `action` on `resource`.
pub open spec fn permission_text(resource: Seq<char>, action: Seq<char>) -> Seq<char> {
    resource + ":"@ + action
}

proof fn lemma_split_without_sep(x: Seq<char>, b: Seq<char>, sep: char)
    requires
        !b.contains(sep),
    ensures
        split_on(x + b, sep) == split_on(x, sep).update(
            split_on(x, sep).len() - 1,
            split_on(x, sep).last() + b,
        ),
        split_on(x + b, sep).len() == split_on(x, sep).len(),
    decreases b.len(),
{
    crate::text::lemma_split_on_nonempty(x, sep);
    let r = split_on(x, sep);
    if b.len() == 0 {
        assert(x + b =~= x);
        assert(r.last() + b =~= r.last());
        assert(r.update(r.len() - 1, r.last() + b) =~= r);
    } else {
        let b0 = b.drop_last();
        assert(!b0.contains(sep)) by {
            if b0.contains(sep) {
                let i = choose|i: int| 0 <= i < b0.len() && b0[i] == sep;
                assert(b[i] == sep);
            }
        }
        lemma_split_without_sep(x, b0, sep);
        assert((x + b).drop_last() =~= x + b0);
        assert((x + b).last() == b.last());
        assert(b.last() != sep) by {
            assert(b[b.len() - 1] == b.last());
        }
        let r0 = split_on(x + b0, sep);
        assert(r0.last() == r.last() + b0);
        assert(r0.last().push(b.last()) =~= r.last() + b);
        assert(r0.update(r0.len() - 1, r0.last().push(b.last())) =~= r.update(r.len() - 1, r.last() + b));
    }
}

/// A permission text built from a resource and an action without `:` parses
/// back to them.
pub proof fn law_permission_text_parses_back(resource: Seq<char>, action: Seq<char>)
    requires
        !resource.contains(':'),
        !action.contains(':'),
    ensures
        parse_permission(permission_text(resource, action)) == Some((resource, action)),
{
    reveal_strlit(":");
    let e = Seq::<char>::empty();
    lemma_split_without_sep(e, resource, ':');
    assert(e + resource =~= resource);
    let r1 = split_on(resource, ':');
    assert(split_on(e, ':') =~= seq![e]);
    assert(r1 =~= seq![resource]);
    let with_sep = resource + ":"@;
    assert(with_sep.drop_last() =~= resource);
    assert(with_sep.last() == ':');
    let r2 = split_on(with_sep, ':');
    assert(r2 =~= seq![resource, e]);
    lemma_split_without_sep(with_sep, action, ':');
    assert(e + action =~= action);
    assert(split_on(with_sep + action, ':') =~= seq![resource, action]);
}

/// A permission text that parses is the text of what it parses to.
pub proof fn law_parsed_permission_is_its_text(text: Seq<char>)
    requires
        parse_permission(text) is Some,
    ensures
        ({
            let parsed = parse_permission(text)->0;
            text == permission_text(parsed.0, parsed.1)
        }),
{
    reveal_strlit(":");
    lemma_split_join(text, ':');
    let parts = split_on(text, ':');
    assert(join_on(parts, ':') == join_on(parts.drop_last(), ':') + seq![':'] + parts.last());
    assert(parts.drop_last() =~= seq![parts[0]]);
    assert(":"@ =~= seq![':']);
}

/// The pieces `parts` joined with `sep` between them.
pub open spec fn join_on(parts: Seq<Seq<char>>, sep: char) -> Seq<char>
    decreases parts.len(),
{
    if parts.len() <= 1 {
        if parts.len() == 1 {
            parts[0]
        } else {
            Seq::empty()
        }
    } else {
        join_on(parts.drop_last(), sep) + seq![sep] + parts.last()
    }
}

proof fn lemma_split_join(s: Seq<char>, sep: char)
    ensures
        join_on(split_on(s, sep), sep) == s,
    decreases s.len(),
{
    if s.len() > 0 {
        let s0 = s.drop_last();
        lemma_split_join(s0, sep);
        crate::text::lemma_split_on_nonempty(s0, sep);
        let r = split_on(s0, sep);
        if s.last() == sep {
            assert(r.push(Seq::<char>::empty()).drop_last() =~= r);
            assert(join_on(r.push(Seq::<char>::empty()), sep) =~= s);
        } else {
            let u = r.update(r.len() - 1, r.last().push(s.last()));
            if r.len() == 1 {
                assert(u =~= seq![r[0].push(s.last())]);
                assert(join_on(u, sep) =~= s);
            } else {
                assert(u.drop_last() =~= r.drop_last());
                assert(u.last() == r.last().push(s.last()));
                assert(join_on(r, sep) == join_on(r.drop_last(), sep) + seq![sep] + r.last());
                assert(join_on(u, sep) == join_on(r.drop_last(), sep) + seq![sep] + r.last().push(s.last()));
                assert(s =~= s0.push(s.last()));
                assert(join_on(u, sep) =~= s);
            }
        }
    }
}

/// How many times `c` occurs in `s`.
pub open spec fn count_char(s: Seq<char>, c: char) -> nat
    decreases s.len(),
{
    if s.len() == 0 {
        0
    } else {
        count_char(s.drop_last(), c) + if s.last() == c {
            1nat
        } else {
            0nat
        }
    }
}

proof fn lemma_split_len(s: Seq<char>, c: char)
    ensures
        split_on(s, c).len() == count_char(s, c) + 1,
    decreases s.len(),
{
    if s.len() > 0 {
        lemma_split_len(s.drop_last(), c);
    }
}

proof fn lemma_count_concat(x: Seq<char>, y: Seq<char>, c: char)
    ensures
        count_char(x + y, c) == count_char(x, c) + count_char(y, c),
    decreases y.len(),
{
    if y.len() == 0 {
        assert(x + y =~= x);
    } else {
        lemma_count_concat(x, y.drop_last(), c);
        assert((x + y).drop_last() =~= x + y.drop_last());
        assert((x + y).last() == y.last());
    }
}

proof fn lemma_count_zero(s: Seq<char>, c: char)
    requires
        count_char(s, c) == 0,
    ensures
        !s.contains(c),
    decreases s.len(),
{
    if s.len() > 0 {
        lemma_count_zero(s.drop_last(), c);
        assert forall|i: int| 0 <= i < s.len() implies s[i] != c by {
            if i < s.len() - 1 {
                assert(s.drop_last()[i] == s[i]);
            }
        }
    }
}

/// A permission text that parses names exactly one resource and action: it
/// parses to `(resource, action)` exactly when it is the text
/// `resource:action`. So a parsed permission matches a resource and action
/// exactly when its text is theirs.
pub proof fn law_permission_matches(text: Seq<char>, resource: Seq<char>, action: Seq<char>)
    requires
        parse_permission(text) is Some,
    ensures
        parse_permission(text) == Some((resource, action)) <==> text == permission_text(
            resource,
            action,
        ),
{
    law_parsed_permission_is_its_text(text);
    if text == permission_text(resource, action) {
        reveal_strlit(":");
        lemma_split_len(text, ':');
        lemma_count_concat(resource, ":"@, ':');
        lemma_count_concat(resource + ":"@, action, ':');
        assert(count_char(":"@, ':') == 1) by {
            assert(":"@.drop_last() =~= Seq::<char>::empty());
        }
        lemma_count_zero(resource, ':');
        lemma_count_zero(action, ':');
        law_permission_text_parses_back(resource, action);
    }
}

impl Permission {
    /// Parses `resource:action`; any other number of `:` gives `None`.
    pub fn from_str(perm: &str) -> (r: Option<Self>)
        ensures
            r is Some <==> parse_permission(perm@) is Some,
            r matches Some(p) ==> parse_permission(perm@) == Some((p.resource@, p.action@)),
    {
        let parts = split_text(perm, ':');
        proof {
            assert(views(parts@).len() == parts@.len());
        }
        if parts.len() == 2 {
            let resource = parts[0].clone();
            let action = parts[1].clone();
            assert(views(parts@)[0] == parts@[0]@);
            assert(views(parts@)[1] == parts@[1]@);
            Some(Permission { resource, action })
        } else {
            None
        }
    }

    /// Whether this is the permission for `action` on `resource`.
    pub fn matches(&self, resource: &str, action: &str) -> (r: bool)
        ensures
            r == (self.resource@ == resource@ && self.action@ == action@),
    {
        text_eq(self.resource.as_str(), resource) && text_eq(self.action.as_str(), action)
    }
}

/// Whether no text occurs twice in `v`.
pub open spec fn distinct_texts(v: Seq<String>) -> bool {
    forall|i: int, j: int| 0 <= i < v.len() && 0 <= j < v.len() && i != j ==> v[i]@ != v[j]@
}

/// What a user may do.
#[derive(Debug, Clone)]
pub struct UserPermissions {
    pub user_id: u128,
    pub role: String,
    pub permissions: Vec<String>,
}

/// The permission that grants everything.
pub open spec fn wildcard() -> Seq<char> {
    "*:*"@
}

fn contains_text(v: &Vec<String>, t: &str) -> (r: bool)
    ensures
        r == views(v@).contains(t@),
{
    let n = v.len();
    let mut i: usize = 0;
    while i < n
        invariant
            n == v@.len(),
            i <= n,
            forall|j: int| 0 <= j < i ==> v@[j]@ != t@,
        decreases n - i,
    {
        if text_eq(v[i].as_str(), t) {
            assert(views(v@)[i as int] == t@);
            return true;
        }
        i = i + 1;
    }
    assert forall|j: int| 0 <= j < views(v@).len() implies views(v@)[j] != t@ by {
        assert(views(v@)[j] == v@[j]@);
    }
    false
}

impl UserPermissions {
    /// The set of permission texts the user holds.
    pub open spec fn permissions(&self) -> Set<Seq<char>> {
        views(self.permissions@).to_set()
    }

    /// No permission is stored twice.
    pub open spec fn well_formed(&self) -> bool {
        distinct_texts(self.permissions@)
    }

    /// Permissions of `user_id`, whose role is `role`; a permission given
    /// more than once is held once.
    pub fn new(user_id: u128, role: String, permissions: Vec<String>) -> (p: Self)
        ensures
            p.well_formed(),
            p.user_id == user_id,
            p.role == role,
            p.permissions() == views(permissions@).to_set(),
    {
        let n = permissions.len();
        let mut kept: Vec<String> = Vec::new();
        let mut i: usize = 0;
        while i < n
            invariant
                n == permissions@.len(),
                i <= n,
                distinct_texts(kept@),
                views(kept@).to_set() == views(permissions@.take(i as int)).to_set(),
            decreases n - i,
        {
            let ghost before = kept@;
            assert(permissions@.take(i + 1) =~= permissions@.take(i as int).push(permissions@[i as int]));
            assert(views(permissions@.take(i + 1)) =~= views(permissions@.take(i as int)).push(permissions@[i as int]@));
            if !contains_text(&kept, permissions[i].as_str()) {
                kept.push(permissions[i].clone());
                assert(views(kept@) =~= views(before).push(permissions@[i as int]@));
                proof {
                    broadcast use vstd::seq_lib::group_seq_properties;
                    assert(views(before).push(permissions@[i as int]@).to_set() =~= views(before).to_set().insert(permissions@[i as int]@));
                    assert(views(permissions@.take(i as int)).push(permissions@[i as int]@).to_set() =~= views(permissions@.take(i as int)).to_set().insert(permissions@[i as int]@));
                    assert forall|a: int, b: int| 0 <= a < kept@.len() && 0 <= b < kept@.len() && a != b implies kept@[a]@ != kept@[b]@ by {
                        if a == before.len() as int {
                            assert(views(before)[b] == before[b]@);
                        } else if b == before.len() as int {
                            assert(views(before)[a] == before[a]@);
                        }
                    }
                }
            } else {
                proof {
                    broadcast use vstd::seq_lib::group_seq_properties;
                    assert(views(permissions@.take(i as int)).push(permissions@[i as int]@).to_set() =~= views(permissions@.take(i as int)).to_set().insert(permissions@[i as int]@));
                    assert(views(kept@).to_set().contains(permissions@[i as int]@));
                }
            }
            i = i + 1;
        }
        assert(permissions@.take(n as int) =~= permissions@);
        UserPermissions { user_id, role, permissions: kept }
    }

    /// Whether the user holds the permission for `action` on `resource`, or
    /// the wildcard.
    pub fn has_permission(&self, resource: &str, action: &str) -> (r: bool)
        ensures
            r == (self.permissions().contains(permission_text(resource@, action@))
                || self.permissions().contains(wildcard())),
    {
        let mut perm = String::from_str(resource);
        perm.append(":");
        perm.append(action);
        proof {
            broadcast use vstd::seq_lib::group_seq_properties;
        }
        let a = contains_text(&self.permissions, perm.as_str());
        let b = contains_text(&self.permissions, "*:*");
        a || b
    }

    /// Whether the user is an administrator: role `admin`, or the wildcard.
    pub fn is_admin(&self) -> (r: bool)
        ensures
            r == (self.role@ == "admin"@ || self.permissions().contains(wildcard())),
    {
        proof {
            broadcast use vstd::seq_lib::group_seq_properties;
        }
        text_eq(self.role.as_str(), "admin") || contains_text(&self.permissions, "*:*")
    }
}

/// Why a request was not authorized.
#[derive(Debug, Clone, PartialEq, Eq)]
pub enum RbacError {
    NoUserId,
    UserNotFound,
    PermissionDenied { resource: String, action: String },
}

impl RbacError {
    /// The HTTP status the refusal is answered with.
    pub fn status_code(&self) -> (c: u16)
        ensures
            c == match *self {
                RbacError::PermissionDenied { .. } => 403u16,
                _ => 401u16,
            },
    {
        match self {
            RbacError::PermissionDenied { .. } => 403,
            _ => 401,
        }
    }

    /// The error text the refusal is answered with.
    pub fn message(&self) -> (s: String)
        ensures
            s@ == match *self {
                RbacError::NoUserId => "Authentication required"@,
                RbacError::UserNotFound => "User not found"@,
                RbacError::PermissionDenied { resource, action } => "Permission denied: "@
                    + permission_text(resource@, action@),
            },
    {
        match self {
            RbacError::NoUserId => String::from_str("Authentication required"),
            RbacError::UserNotFound => String::from_str("User not found"),
            RbacError::PermissionDenied { resource, action } => {
                let mut s = String::from_str("Permission denied: ");
                s.append(resource.as_str());
                s.append(":");
                s.append(action.as_str());
                s
            },
        }
    }
}

/// Whether a user with permissions `p` may perform `action` on `resource`:
/// administrators may do everything; others need the wildcard `*:*` or the
/// permission `<resource>:<action>`.
pub open spec fn allowed(p: UserPermissions, resource: Seq<char>, action: Seq<char>) -> bool {
    ||| p.role@ == "admin"@
    ||| p.permissions().contains(wildcard())
    ||| p.permissions().contains(permission_text(resource, action))
}

/// What a check of `action` on `resource` answers for a user whose
/// permissions the lookup gave as `perms`: unknown users are refused as
/// such, allowed ones pass, and others are denied that permission.
pub open spec fn access_answer(
    perms: Option<UserPermissions>,
    resource: Seq<char>,
    action: Seq<char>,
    res: Result<(), RbacError>,
) -> bool {
    match perms {
        None => res == Err::<(), RbacError>(RbacError::UserNotFound),
        Some(p) => if allowed(p, resource, action) {
            res is Ok
        } else {
            res matches Err(RbacError::PermissionDenied { resource: r, action: a }) && r@ == resource
                && a@ == action
        },
    }
}

/// Whatever `has_permission` or `is_admin` grants a user is allowed, and
/// nothing else is: the check passes exactly for administrators, holders of
/// the wildcard, and holders of the permission itself.
pub proof fn law_access_granted(p: UserPermissions, resource: Seq<char>, action: Seq<char>)
    ensures
        allowed(p, resource, action) <==> (p.role@ == "admin"@ || p.permissions().contains(
            wildcard(),
        ) || p.permissions().contains(permission_text(resource, action))),
        (p.permissions().contains(permission_text(resource, action)) || p.permissions().contains(
            wildcard(),
        )) ==> allowed(p, resource, action),
        !allowed(p, resource, action) ==> p.role@ != "admin"@,
        wildcard() == "*:*"@,
{
}

/// Checks requests against the permissions that `get_permissions` looks up.
pub struct RbacChecker<F: Fn(u128) -> Option<UserPermissions>> {
    get_permissions: F,
}

impl<F: Fn(u128) -> Option<UserPermissions>> RbacChecker<F> {
    /// The lookup of a user's permissions.
    pub closed spec fn lookup(&self) -> F {
        self.get_permissions
    }

    /// A checker that looks permissions up with `get_permissions`.
    pub fn new(get_permissions: F) -> (c: Self)
        ensures
            c.lookup() == get_permissions,
    {
        RbacChecker { get_permissions }
    }

    /// Decides whether the user `user_id` (`None` when the request carries no
    /// user) may perform `action` on `resource`. Administrators may do
    /// everything.
    pub fn check_permission(&self, user_id: Option<u128>, resource: &str, action: &str) -> (res:
        Result<(), RbacError>)
        requires
            forall|u: u128| call_requires(self.lookup(), (u,)),
        ensures
            user_id is None ==> res == Err::<(), RbacError>(RbacError::NoUserId),
            user_id matches Some(u) ==> exists|perms: Option<UserPermissions>|
                #[trigger] call_ensures(self.lookup(), (u,), perms) && access_answer(
                    perms,
                    resource@,
                    action@,
                    res,
                ),
    {
        let uid = match user_id {
            Some(u) => u,
            None => return Err(RbacError::NoUserId),
        };
        let lookup = &self.get_permissions;
        assert(*lookup == self.lookup());
        assert(call_requires(*lookup, (uid,)));
        let perms = lookup(uid);
        assert(call_ensures(self.lookup(), (uid,), perms));
        let p = match perms {
            Some(p) => p,
            None => return Err(RbacError::UserNotFound),
        };
        if p.is_admin() {
            return Ok(());
        }
        if p.has_permission(resource, action) {
            Ok(())
        } else {
            Err(RbacError::PermissionDenied { resource: String::from_str(resource), action: String::from_str(action) })
        }
    }
}

} // verus!
