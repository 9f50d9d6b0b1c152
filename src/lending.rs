use vstd::prelude::*;

verus! {

/// Where an owner binding stands.
#[derive(Clone, Copy, Debug, PartialEq, Eq, Structural)]
pub enum OwnerState {
    /// Owns its value and no shared view of it is open.
    OwnedMutable,
    /// Owns its value and at least one shared view of it is open.
    OwnedBorrowed,
    /// Its value was handed to another owner.
    MovedOut,
    /// Its scope ended and its value was dropped.
    Destroyed,
}

/// Why an action on an owner was refused.
#[derive(Clone, Copy, Debug, PartialEq, Eq, Structural)]
pub enum Rejection {
    /// A shared view of the value is still open.
    Borrowed,
    /// No shared view is open, so none can end.
    NotBorrowed,
    /// The value was moved to another owner.
    MovedOut,
    /// The owner's scope has ended.
    Destroyed,
}

/// What can be done to an owner binding.
pub enum Action {
    Mutate(char),
    Borrow,
    EndBorrow,
    MoveOut,
    LeaveScope,
}

/// An owner binding: its state, how many shared views are open, and the text
/// it holds (empty once the text has left it).
pub struct OwnerModel {
    pub state: OwnerState,
    pub views: nat,
    pub text: Seq<char>,
}

/// A view is open exactly in the borrowed state, and a binding that no
/// longer owns anything holds no text.
pub open spec fn well_formed(m: OwnerModel) -> bool {
    &&& (m.state == OwnerState::OwnedBorrowed <==> m.views > 0)
    &&& (m.state == OwnerState::MovedOut || m.state == OwnerState::Destroyed) ==> m.text.len() == 0
}

/// Whether `a` is allowed in state `s`: mutation only while owned with no
/// open view, a new view only while owned, ending a view only while one is
/// open, a move only while owned with no open view, and leaving the scope
/// always.
pub open spec fn permitted(s: OwnerState, a: Action) -> bool {
    match a {
        Action::Mutate(_) => s == OwnerState::OwnedMutable,
        Action::Borrow => s == OwnerState::OwnedMutable || s == OwnerState::OwnedBorrowed,
        Action::EndBorrow => s == OwnerState::OwnedBorrowed,
        Action::MoveOut => s == OwnerState::OwnedMutable,
        Action::LeaveScope => true,
    }
}

/// The reason given when an action is not permitted in state `s`.
pub open spec fn rejection(s: OwnerState) -> Rejection {
    match s {
        OwnerState::OwnedMutable => Rejection::NotBorrowed,
        OwnerState::OwnedBorrowed => Rejection::Borrowed,
        OwnerState::MovedOut => Rejection::MovedOut,
        OwnerState::Destroyed => Rejection::Destroyed,
    }
}

/// The binding after a permitted action `a`.
pub open spec fn next(m: OwnerModel, a: Action) -> OwnerModel {
    match a {
        Action::Mutate(c) => OwnerModel { text: m.text.push(c), ..m },
        Action::Borrow => OwnerModel { state: OwnerState::OwnedBorrowed, views: m.views + 1, ..m },
        Action::EndBorrow => OwnerModel {
            state: if m.views == 1 {
                OwnerState::OwnedMutable
            } else {
                OwnerState::OwnedBorrowed
            },
            views: (m.views - 1) as nat,
            ..m
        },
        Action::MoveOut => OwnerModel { state: OwnerState::MovedOut, views: 0, text: Seq::empty() },
        Action::LeaveScope => OwnerModel {
            state: OwnerState::Destroyed,
            views: 0,
            text: Seq::empty(),
        },
    }
}

/// The binding after `a` is attempted: a refused action changes nothing.
pub open spec fn after(m: OwnerModel, a: Action) -> OwnerModel {
    if permitted(m.state, a) {
        next(m, a)
    } else {
        m
    }
}

/// The outcome reported for `a`.
pub open spec fn outcome(m: OwnerModel, a: Action) -> Result<(), Rejection> {
    if permitted(m.state, a) {
        Ok(())
    } else {
        Err(rejection(m.state))
    }
}

/// The binding after `n` attempts to open a view.
pub open spec fn borrowed_times(m: OwnerModel, n: nat) -> OwnerModel
    decreases n,
{
    if n == 0 {
        m
    } else {
        after(borrowed_times(m, (n - 1) as nat), Action::Borrow)
    }
}

/// The binding after `n` attempts to end a view.
pub open spec fn ended_times(m: OwnerModel, n: nat) -> OwnerModel
    decreases n,
{
    if n == 0 {
        m
    } else {
        after(ended_times(m, (n - 1) as nat), Action::EndBorrow)
    }
}

/// A well-formed binding with an open view refuses mutation, and the refusal
/// leaves it unchanged.
pub proof fn lemma_no_mutation_while_borrowed(m: OwnerModel, c: char)
    requires
        well_formed(m),
        m.views > 0,
    ensures
        !permitted(m.state, Action::Mutate(c)),
        outcome(m, Action::Mutate(c)) == Err::<(), Rejection>(Rejection::Borrowed),
        after(m, Action::Mutate(c)) == m,
{
}

/// Once a binding has handed its text to a new owner it can no longer be
/// used: every action but leaving its scope is refused, and changes nothing.
pub proof fn lemma_moved_out_unusable(m: OwnerModel, a: Action)
    requires
        m.state == OwnerState::OwnedMutable,
        !(a is LeaveScope),
    ensures
        outcome(next(m, Action::MoveOut), a) == Err::<(), Rejection>(Rejection::MovedOut),
        after(next(m, Action::MoveOut), a) == next(m, Action::MoveOut),
{
}

proof fn lemma_borrowed_times(m: OwnerModel, k: nat)
    requires
        m.state == OwnerState::OwnedMutable,
        well_formed(m),
    ensures
        borrowed_times(m, k) == (OwnerModel {
            state: if k > 0 {
                OwnerState::OwnedBorrowed
            } else {
                OwnerState::OwnedMutable
            },
            views: k,
            text: m.text,
        }),
    decreases k,
{
    if k > 0 {
        lemma_borrowed_times(m, (k - 1) as nat);
    }
}

proof fn lemma_ended_times(m: OwnerModel, n: nat, j: nat)
    requires
        m.state == OwnerState::OwnedMutable,
        well_formed(m),
        j <= n,
    ensures
        ended_times(borrowed_times(m, n), j) == (OwnerModel {
            state: if j < n {
                OwnerState::OwnedBorrowed
            } else {
                OwnerState::OwnedMutable
            },
            views: (n - j) as nat,
            text: m.text,
        }),
    decreases j,
{
    if j > 0 {
        lemma_ended_times(m, n, (j - 1) as nat);
    } else {
        lemma_borrowed_times(m, n);
    }
}

/// Mutation is permitted before any view is opened; once `n` views are open
/// it is refused until every one of them has ended; then the binding is as
/// it was, and mutation is permitted again.
pub proof fn lemma_scoped_borrow_then_mutate(m: OwnerModel, n: nat, c: char)
    requires
        m.state == OwnerState::OwnedMutable,
        well_formed(m),
    ensures
        permitted(m.state, Action::Mutate(c)),
        after(m, Action::Mutate(c)).text == m.text.push(c),
        n > 0 ==> !permitted(borrowed_times(m, n).state, Action::Mutate(c)),
        forall|j: nat|
            j < n ==> !permitted(#[trigger] ended_times(borrowed_times(m, n), j).state, Action::Mutate(c)),
        ended_times(borrowed_times(m, n), n) == m,
        permitted(ended_times(borrowed_times(m, n), n).state, Action::Mutate(c)),
{
    lemma_borrowed_times(m, n);
    lemma_ended_times(m, n, n);
    assert forall|j: nat| j < n implies !permitted(
        #[trigger] ended_times(borrowed_times(m, n), j).state,
        Action::Mutate(c),
    ) by {
        lemma_ended_times(m, n, j);
    }
}

/// Whether a binding still holds its value, and if not, why.
#[derive(Clone, Copy, Debug, PartialEq, Eq, Structural)]
enum Holding {
    Owned,
    MovedOut,
    Destroyed,
}

/// An owner binding of a text, checked at run time: shared views are counted,
/// and each action that the borrow rules forbid is refused with a reason.
pub struct Owner {
    text: String,
    views: u64,
    holding: Holding,
}

impl View for Owner {
    type V = OwnerModel;

    closed spec fn view(&self) -> OwnerModel {
        match self.holding {
            Holding::Owned => OwnerModel {
                state: if self.views > 0 {
                    OwnerState::OwnedBorrowed
                } else {
                    OwnerState::OwnedMutable
                },
                views: self.views as nat,
                text: self.text@,
            },
            Holding::MovedOut => OwnerModel {
                state: OwnerState::MovedOut,
                views: 0,
                text: Seq::empty(),
            },
            Holding::Destroyed => OwnerModel {
                state: OwnerState::Destroyed,
                views: 0,
                text: Seq::empty(),
            },
        }
    }
}

impl Owner {
    /// Every binding is well formed.
    pub proof fn lemma_well_formed(&self)
        ensures
            well_formed(self@),
    {
    }

    /// Takes ownership of `text`, with no view open.
    pub fn new(text: String) -> (r: Owner)
        ensures
            r@ == (OwnerModel { state: OwnerState::OwnedMutable, views: 0, text: text@ }),
    {
        Owner { text, views: 0, holding: Holding::Owned }
    }

    /// The binding's current state.
    pub fn state(&self) -> (r: OwnerState)
        ensures
            r == self@.state,
    {
        match self.holding {
            Holding::Owned => if self.views > 0 {
                OwnerState::OwnedBorrowed
            } else {
                OwnerState::OwnedMutable
            },
            Holding::MovedOut => OwnerState::MovedOut,
            Holding::Destroyed => OwnerState::Destroyed,
        }
    }

    /// How many shared views are open.
    pub fn views(&self) -> (r: u64)
        ensures
            r as nat == self@.views,
    {
        match self.holding {
            Holding::Owned => self.views,
            _ => 0,
        }
    }

    /// The owned text, while the binding still owns it.
    pub fn read(&self) -> (r: Option<&str>)
        ensures
            r is Some <==> (self@.state == OwnerState::OwnedMutable || self@.state
                == OwnerState::OwnedBorrowed),
            r is Some ==> r->0@ == self@.text,
    {
        match self.holding {
            Holding::Owned => Some(self.text.as_str()),
            _ => None,
        }
    }

    /// The reason for refusing an action in the current state.
    fn refusal(&self) -> (r: Rejection)
        ensures
            r == rejection(self@.state),
    {
        match self.state() {
            OwnerState::OwnedMutable => Rejection::NotBorrowed,
            OwnerState::OwnedBorrowed => Rejection::Borrowed,
            OwnerState::MovedOut => Rejection::MovedOut,
            OwnerState::Destroyed => Rejection::Destroyed,
        }
    }

    /// Appends `c` to the text, provided no view is open and the text is
    /// still owned.
    pub fn push(&mut self, c: char) -> (r: Result<(), Rejection>)
        ensures
            r == outcome(old(self)@, Action::Mutate(c)),
            final(self)@ == after(old(self)@, Action::Mutate(c)),
    {
        if self.state() == OwnerState::OwnedMutable {
            self.text.push(c);
            Ok(())
        } else {
            Err(self.refusal())
        }
    }

    /// Opens one more shared view, provided the text is still owned.
    pub fn borrow(&mut self) -> (r: Result<(), Rejection>)
        requires
            old(self)@.views < u64::MAX,
        ensures
            r == outcome(old(self)@, Action::Borrow),
            final(self)@ == after(old(self)@, Action::Borrow),
    {
        match self.holding {
            Holding::Owned => {
                self.views = self.views + 1;
                Ok(())
            },
            _ => Err(self.refusal()),
        }
    }

    /// Ends one open shared view; when it was the last, the text may be
    /// mutated again.
    pub fn end_borrow(&mut self) -> (r: Result<(), Rejection>)
        ensures
            r == outcome(old(self)@, Action::EndBorrow),
            final(self)@ == after(old(self)@, Action::EndBorrow),
    {
        if self.state() == OwnerState::OwnedBorrowed {
            self.views = self.views - 1;
            Ok(())
        } else {
            Err(self.refusal())
        }
    }

    /// Hands the text to a new owner, provided no view is open; the binding
    /// cannot be used for the text afterwards.
    pub fn move_out(&mut self) -> (r: Result<String, Rejection>)
        ensures
            r is Ok <==> permitted(old(self)@.state, Action::MoveOut),
            r matches Ok(t) ==> t@ == old(self)@.text,
            r matches Err(e) ==> e == rejection(old(self)@.state),
            final(self)@ == after(old(self)@, Action::MoveOut),
    {
        if self.state() == OwnerState::OwnedMutable {
            let mut text = String::new();
            std::mem::swap(&mut text, &mut self.text);
            self.holding = Holding::MovedOut;
            Ok(text)
        } else {
            Err(self.refusal())
        }
    }

    /// Ends the binding's scope: its text, if it still owns it, is dropped,
    /// and with it every view.
    pub fn leave_scope(&mut self)
        ensures
            final(self)@ == after(old(self)@, Action::LeaveScope),
    {
        let mut text = String::new();
        std::mem::swap(&mut text, &mut self.text);
        self.holding = Holding::Destroyed;
    }
}

} // verus!
