//! The Onshape credentials of the users, and what is known about their validity.

use vstd::prelude::*;

use crate::errors;
use crate::records::{UserOnshapeTokens, UserTokensView};
use crate::table::{Duplicate, Table};
use crate::text;
use crate::text::copy_opt;
use crate::time::Timestamp;

verus! {

// ---------------------------------------------------------------------------
// Validation
// ---------------------------------------------------------------------------
/// What is known about the validity of some credentials.
#[derive(Clone, Copy, Debug, PartialEq, Eq, Structural)]
pub enum ValidationStatus {
    /// Nobody has asked Onshape yet.
    Unchecked,
    /// Onshape accepted them.
    Valid,
    /// Onshape rejected them.
    Invalid,
}

/// The outcome of the last validation of some credentials.
#[derive(Debug, PartialEq, Eq)]
pub struct ValidationState {
    /// What is known.
    pub status: ValidationStatus,
    /// When Onshape was last asked.
    pub last_check: Option<Timestamp>,
    /// A note for the user.
    pub message: Option<String>,
}

/// The view of a [`ValidationState`].
pub struct ValidationView {
    /// What is known.
    pub status: ValidationStatus,
    /// When Onshape was last asked.
    pub last_check: Option<Timestamp>,
    /// A note for the user.
    pub message: Option<Seq<char>>,
}

impl View for ValidationState {
    type V = ValidationView;

    open spec fn view(&self) -> ValidationView {
        ValidationView {
            status: self.status,
            last_check: self.last_check,
            message: text::opt_chars(self.message),
        }
    }
}

/// What is known of credentials that nobody has asked about.
pub open spec fn unchecked() -> ValidationView {
    ValidationView { status: ValidationStatus::Unchecked, last_check: None, message: None }
}

impl Default for ValidationState {
    fn default() -> (r: ValidationState)
        ensures
            r@ == unchecked(),
    {
        ValidationState { status: ValidationStatus::Unchecked, last_check: None, message: None }
    }
}

impl Duplicate for ValidationState {
    fn duplicate(&self) -> (r: ValidationState) {
        ValidationState {
            status: self.status,
            last_check: self.last_check,
            message: copy_opt(&self.message),
        }
    }
}

// ---------------------------------------------------------------------------
// Credentials
// ---------------------------------------------------------------------------
/// The credentials of a user: the tokens, and the slot in which their validation is kept.
pub struct UserCredentials {
    /// The tokens, if the user has any.
    pub tokens: Option<UserOnshapeTokens>,
    /// The validation slot of this generation of credentials.
    pub validation: usize,
}

/// The view of [`UserCredentials`].
pub struct CredentialView {
    /// The tokens, if the user has any.
    pub tokens: Option<UserTokensView>,
    /// The validation slot of this generation of credentials.
    pub validation: usize,
}

impl View for UserCredentials {
    type V = CredentialView;

    open spec fn view(&self) -> CredentialView {
        CredentialView {
            tokens: errors::option_view(self.tokens),
            validation: self.validation,
        }
    }
}

/// The credentials of all users, as a mathematical value.
#[verifier::ext_equal]
pub struct CredentialsView {
    /// The credentials by user.
    pub users: Map<Seq<char>, CredentialView>,
    /// The validation slots, in the order in which they were opened.
    pub slots: Seq<ValidationView>,
}

impl CredentialsView {
    /// Whether every user has a slot, and no two users share one.
    pub open spec fn wf(self) -> bool {
        &&& forall|u: Seq<char>| #[trigger]
            self.users.dom().contains(u) ==> self.users[u].validation < self.slots.len()
        &&& forall|u: Seq<char>, w: Seq<char>|
            #![trigger self.users.dom().contains(u), self.users.dom().contains(w)]
            self.users.dom().contains(u) && self.users.dom().contains(w) && u != w
                ==> self.users[u].validation != self.users[w].validation
        &&& self.slots.len() <= usize::MAX
    }

    /// The tokens of a user, if the user has any.
    pub open spec fn tokens_of(self, user: Seq<char>) -> Option<UserTokensView> {
        if self.users.dom().contains(user) {
            self.users[user].tokens
        } else {
            None
        }
    }

    /// The credentials with a user in a newly opened slot.
    pub open spec fn opened(
        self,
        user: Seq<char>,
        tokens: Option<UserTokensView>,
    ) -> CredentialsView {
        CredentialsView {
            users: self.users.insert(
                user,
                CredentialView { tokens, validation: self.slots.len() as usize },
            ),
            slots: self.slots.push(unchecked()),
        }
    }

    /// The credentials after a user's tokens were refreshed: a user keeps the slot.
    pub open spec fn refreshed(self, user: Seq<char>, tokens: UserTokensView) -> CredentialsView {
        if self.users.dom().contains(user) {
            CredentialsView {
                users: self.users.insert(
                    user,
                    CredentialView { tokens: Some(tokens), ..self.users[user] },
                ),
                ..self
            }
        } else {
            self.opened(user, Some(tokens))
        }
    }

    /// The credentials after a user authorized the server anew: the user gets a new slot.
    pub open spec fn reauthorized(self, user: Seq<char>, tokens: UserTokensView) -> CredentialsView {
        self.opened(user, Some(tokens))
    }

    /// The credentials after a look at a user's slot, which is opened if there is none.
    pub open spec fn with_slot(self, user: Seq<char>) -> CredentialsView {
        if self.users.dom().contains(user) {
            self
        } else {
            self.opened(user, None)
        }
    }

    /// The credentials with another validation in a slot.
    pub open spec fn validated(self, slot: int, validation: ValidationView) -> CredentialsView {
        CredentialsView { slots: self.slots.update(slot, validation), ..self }
    }
}

/// The credentials of all users.
pub struct CredentialStore {
    users: Table<UserCredentials>,
    slots: Vec<ValidationState>,
}

impl View for CredentialStore {
    type V = CredentialsView;

    closed spec fn view(&self) -> CredentialsView {
        CredentialsView { users: self.users@, slots: views(self.slots@) }
    }
}

spec fn views(slots: Seq<ValidationState>) -> Seq<ValidationView> {
    slots.map_values(|s: ValidationState| s@)
}

impl CredentialStore {
    #[verifier::type_invariant]
    spec fn inv(self) -> bool {
        self@.wf()
    }

    /// No users.
    pub fn new() -> (r: CredentialStore)
        ensures
            r@ == (CredentialsView {
                users: Map::empty(),
                slots: Seq::empty(),
            }),
            r@.wf(),
    {
        let users: Table<UserCredentials> = Table::new();
        let slots: Vec<ValidationState> = Vec::new();
        proof {
            assert(views(slots@) =~= Seq::empty());
        }
        CredentialStore { users, slots }
    }

    /// The credentials of a user.
    pub fn get(&self, user: &str) -> (r: Option<&UserCredentials>)
        ensures
            r is Some <==> self@.users.dom().contains(user@),
            r matches Some(c) ==> c@ == self@.users[user@],
            self@.wf(),
    {
        proof {
            use_type_invariant(self);
        }
        self.users.get(user)
    }

    /// The table of all users.
    pub fn users(&self) -> (r: &Table<UserCredentials>)
        ensures
            r@ == self@.users,
            self@.wf(),
    {
        proof {
            use_type_invariant(self);
        }
        &self.users
    }

    fn open(&mut self, user: &str, tokens: Option<UserOnshapeTokens>)
        ensures
            final(self)@ == old(self)@.opened(user@, errors::option_view(tokens)),
            final(self)@.wf(),
    {
        proof {
            use_type_invariant(&*self);
        }
        let mut users: Table<UserCredentials> = Table::new();
        let mut slots: Vec<ValidationState> = Vec::new();
        std::mem::swap(&mut users, &mut self.users);
        std::mem::swap(&mut slots, &mut self.slots);
        let slot: usize = slots.len();
        users.insert(user.to_owned(), UserCredentials { tokens, validation: slot });
        slots.push(ValidationState::default());
        proof {
            assert(views(slots@) =~= old(self)@.slots.push(unchecked()));
            assert(slots@.len() == slots.len());
        }
        self.slots = slots;
        self.users = users;
    }

    /// Stores refreshed tokens; a user keeps the validation slot.
    pub fn store_refreshed(&mut self, user: &str, tokens: UserOnshapeTokens)
        ensures
            final(self)@ == old(self)@.refreshed(user@, tokens@),
            final(self)@.wf(),
    {
        proof {
            use_type_invariant(&*self);
        }
        let known: Option<usize> = match self.users.get(user) {
            Some(c) => Some(c.validation),
            None => None,
        };
        match known {
            Some(validation) => {
                let mut users: Table<UserCredentials> = Table::new();
                std::mem::swap(&mut users, &mut self.users);
                users.insert(user.to_owned(), UserCredentials { tokens: Some(tokens), validation });
                self.users = users;
            },
            None => self.open(user, Some(tokens)),
        }
    }

    /// Stores the tokens of a new authorization; the user gets a new validation slot.
    pub fn replace_reauthorized(&mut self, user: &str, tokens: UserOnshapeTokens)
        ensures
            final(self)@ == old(self)@.reauthorized(user@, tokens@),
            final(self)@.wf(),
    {
        self.open(user, Some(tokens));
    }

    /// The validation slot of a user, which is opened if there is none.
    pub fn validation_for_user(&mut self, user: &str) -> (r: usize)
        ensures
            final(self)@ == old(self)@.with_slot(user@),
            final(self)@.users[user@].validation == r,
            r < final(self)@.slots.len(),
            final(self)@.wf(),
    {
        proof {
            use_type_invariant(&*self);
        }
        let known: Option<usize> = match self.users.get(user) {
            Some(c) => Some(c.validation),
            None => None,
        };
        match known {
            Some(validation) => validation,
            None => {
                let slot: usize = self.slots.len();
                self.open(user, None);
                slot
            },
        }
    }

    /// What is known in a slot.
    pub fn validation(&self, slot: usize) -> (r: Option<&ValidationState>)
        ensures
            r is Some <==> slot < self@.slots.len(),
            r matches Some(v) ==> v@ == self@.slots[slot as int],
    {
        if slot < self.slots.len() {
            Some(&self.slots[slot])
        } else {
            None
        }
    }

    /// Keeps the outcome of a validation in a slot, if there is such a slot.
    pub fn set_validation(&mut self, slot: usize, validation: ValidationState) -> (r: bool)
        ensures
            r == (slot < old(self)@.slots.len()),
            r ==> final(self)@ == old(self)@.validated(slot as int, validation@),
            !r ==> final(self)@ == old(self)@,
            final(self)@.wf(),
    {
        proof {
            use_type_invariant(&*self);
        }
        if slot < self.slots.len() {
            let mut users: Table<UserCredentials> = Table::new();
            let mut slots: Vec<ValidationState> = Vec::new();
            std::mem::swap(&mut users, &mut self.users);
            std::mem::swap(&mut slots, &mut self.slots);
            slots.set(slot, validation);
            proof {
                assert(views(slots@) =~= old(self)@.slots.update(slot as int, validation@));
            }
            self.slots = slots;
            self.users = users;
            true
        } else {
            false
        }
    }
}

// ---------------------------------------------------------------------------
// Refresh locks
// ---------------------------------------------------------------------------
/// The number of a lock, as a table entry.
#[derive(Clone, Copy, Debug, PartialEq, Eq, Structural)]
pub struct LockId {
    /// The number.
    pub number: usize,
}

impl View for LockId {
    type V = usize;

    open spec fn view(&self) -> usize {
        self.number
    }
}

/// Which lock serializes the refreshes of which user.
pub struct LockRegistry {
    locks: Table<LockId>,
}

impl View for LockRegistry {
    type V = Map<Seq<char>, usize>;

    closed spec fn view(&self) -> Map<Seq<char>, usize> {
        self.locks@
    }
}

/// Whether the locks are numbered from 0 on, a different number for each user.
pub open spec fn locks_wf(m: Map<Seq<char>, usize>) -> bool {
    &&& m.dom().finite()
    &&& m.dom().len() <= usize::MAX
    &&& forall|u: Seq<char>| #[trigger] m.dom().contains(u) ==> m[u] < m.dom().len()
    &&& forall|u: Seq<char>, w: Seq<char>|
        #![trigger m.dom().contains(u), m.dom().contains(w)]
        m.dom().contains(u) && m.dom().contains(w) && u != w ==> m[u] != m[w]
}

/// The locks after a user asked for the own one.
pub open spec fn locks_with(m: Map<Seq<char>, usize>, user: Seq<char>) -> Map<Seq<char>, usize> {
    if m.dom().contains(user) {
        m
    } else {
        m.insert(user, m.dom().len() as usize)
    }
}

impl LockRegistry {
    #[verifier::type_invariant]
    spec fn inv(self) -> bool {
        locks_wf(self@)
    }

    /// No locks.
    pub fn new() -> (r: LockRegistry)
        ensures
            r@ == Map::<Seq<char>, usize>::empty(),
            locks_wf(r@),
    {
        LockRegistry { locks: Table::new() }
    }

    /// The lock of a user, which is made if there is none. The locks are numbered from 0 on.
    pub fn lock_for_user(&mut self, user: &str) -> (r: usize)
        ensures
            final(self)@ == locks_with(old(self)@, user@),
            final(self)@.dom().contains(user@),
            r == final(self)@[user@],
            locks_wf(final(self)@),
    {
        proof {
            use_type_invariant(&*self);
        }
        let known: Option<usize> = match self.locks.get(user) {
            Some(id) => Some(id.number),
            None => None,
        };
        match known {
            Some(number) => number,
            None => {
                let mut locks: Table<LockId> = Table::new();
                std::mem::swap(&mut locks, &mut self.locks);
                let number: usize = locks.len();
                locks.insert(user.to_owned(), LockId { number });
                self.locks = locks;
                number
            },
        }
    }
}

} // verus!
