//! The calls that an instruction asks for, and what they do to the hold
//! that the program has on a token account.
//!
//! The token stays in its owner's account throughout. Staking makes the
//! program's authority the delegate of that account and then freezes the
//! account in the delegate's name; unstaking thaws it and then takes the
//! delegation back.

use crate::accounts::Approve;
use crate::accounts::CpiContext;
use crate::accounts::Revoke;
use crate::address::Address;
use crate::pda::seed_bytes;
use crate::token_metadata::Instruction;
use crate::token_metadata::InstructionView;
use vstd::prelude::*;

verus! {

/// One thing that the caller of an instruction must do once the
/// instruction has accepted, in the order in which the instruction lists
/// them.
#[derive(Clone, Debug, PartialEq, Eq)]
pub enum Action {
    /// Call the token program's `approve` for `amount` tokens.
    Approve { approve: CpiContext<Approve>, amount: u64 },
    /// Invoke `instruction`, which freezes a token account, signed for the
    /// program's authority with `signer_seeds`.
    FreezeDelegatedAccount { instruction: Instruction, signer_seeds: Vec<Vec<u8>> },
    /// Invoke `instruction`, which thaws a token account, signed for the
    /// program's authority with `signer_seeds`.
    ThawDelegatedAccount { instruction: Instruction, signer_seeds: Vec<Vec<u8>> },
    /// Call the token program's `revoke`.
    Revoke { revoke: CpiContext<Revoke> },
    /// Close the user state and hand what it held to `destination`.
    CloseStakeState { destination: Address },
}

/// An [`Action`] as a value.
pub enum ActionView {
    Approve { approve: CpiContext<Approve>, amount: u64 },
    FreezeDelegatedAccount { instruction: InstructionView, signer_seeds: Seq<Seq<u8>> },
    ThawDelegatedAccount { instruction: InstructionView, signer_seeds: Seq<Seq<u8>> },
    Revoke { revoke: CpiContext<Revoke> },
    CloseStakeState { destination: Address },
}

impl View for Action {
    type V = ActionView;

    open spec fn view(&self) -> ActionView {
        match *self {
            Action::Approve { approve, amount } => ActionView::Approve { approve, amount },
            Action::FreezeDelegatedAccount {
                instruction,
                signer_seeds,
            } => ActionView::FreezeDelegatedAccount {
                instruction: instruction@,
                signer_seeds: seed_bytes(signer_seeds@),
            },
            Action::ThawDelegatedAccount {
                instruction,
                signer_seeds,
            } => ActionView::ThawDelegatedAccount {
                instruction: instruction@,
                signer_seeds: seed_bytes(signer_seeds@),
            },
            Action::Revoke { revoke } => ActionView::Revoke { revoke },
            Action::CloseStakeState { destination } => ActionView::CloseStakeState { destination },
        }
    }
}

/// The actions of a list, each as a value.
pub open spec fn action_views(actions: Seq<Action>) -> Seq<ActionView> {
    actions.map_values(|action: Action| action@)
}

/// The hold on one token account: who its delegate is, and whether it is
/// frozen.
#[derive(Clone, Copy, Debug, PartialEq, Eq)]
pub struct Custody {
    pub delegate: Option<Address>,
    pub frozen: bool,
}

impl Custody {
    /// The account is frozen and `authority` is its delegate.
    pub open spec fn held_by(self, authority: Address) -> bool {
        self.frozen && self.delegate == Some(authority)
    }

    /// The account is thawed and `authority` is not its delegate.
    pub open spec fn free_of(self, authority: Address) -> bool {
        !self.frozen && self.delegate != Some(authority)
    }
}

/// The delegate in whose name `instruction` acts, and the token account
/// that it acts on: its first two accounts.
pub open spec fn delegated_target(instruction: InstructionView) -> Option<(Address, Address)> {
    if instruction.accounts.len() >= 2 {
        Some((instruction.accounts[0].pubkey, instruction.accounts[1].pubkey))
    } else {
        None
    }
}

impl ActionView {
    /// The hold on `account` once the action is done, where `custody` was
    /// the hold before; `None` where the action is refused. An action on
    /// another account changes nothing. The delegate alone can freeze or
    /// thaw.
    pub open spec fn applied(self, account: Address, custody: Custody) -> Option<Custody> {
        match self {
            ActionView::Approve { approve, amount } => if approve.accounts.to == account {
                Some(Custody { delegate: Some(approve.accounts.delegate), frozen: custody.frozen })
            } else {
                Some(custody)
            },
            ActionView::FreezeDelegatedAccount { instruction, signer_seeds } => match delegated_target(
                instruction,
            ) {
                Some((delegate, target)) => if target != account {
                    Some(custody)
                } else if custody.delegate == Some(delegate) {
                    Some(Custody { delegate: custody.delegate, frozen: true })
                } else {
                    None
                },
                None => None,
            },
            ActionView::ThawDelegatedAccount { instruction, signer_seeds } => match delegated_target(
                instruction,
            ) {
                Some((delegate, target)) => if target != account {
                    Some(custody)
                } else if custody.delegate == Some(delegate) {
                    Some(Custody { delegate: custody.delegate, frozen: false })
                } else {
                    None
                },
                None => None,
            },
            ActionView::Revoke { revoke } => if revoke.accounts.source == account {
                Some(Custody { delegate: None, frozen: custody.frozen })
            } else {
                Some(custody)
            },
            ActionView::CloseStakeState { destination } => Some(custody),
        }
    }
}

/// The hold on `account` once `actions` are done in order, where `custody`
/// was the hold before; `None` where one of them is refused.
pub open spec fn custody_after(actions: Seq<ActionView>, account: Address, custody: Custody) -> Option<
    Custody,
>
    decreases actions.len(),
{
    if actions.len() == 0 {
        Some(custody)
    } else {
        match actions[0].applied(account, custody) {
            Some(next) => custody_after(actions.drop_first(), account, next),
            None => None,
        }
    }
}

impl Custody {
    /// Does `action` to the hold on `account`, unless it is refused; says
    /// whether it was done.
    pub fn apply(&mut self, account: &Address, action: &Action) -> (done: bool)
        ensures
            done == action@.applied(*account, *old(self)).is_some(),
            done ==> Some(*final(self)) == action@.applied(*account, *old(self)),
            !done ==> *final(self) == *old(self),
    {
        match action {
            Action::Approve { approve, amount } => {
                if approve.accounts.to == *account {
                    self.delegate = Some(approve.accounts.delegate);
                }
                true
            },
            Action::FreezeDelegatedAccount { instruction, signer_seeds } => self.set_frozen(
                account,
                instruction,
                true,
            ),
            Action::ThawDelegatedAccount { instruction, signer_seeds } => self.set_frozen(
                account,
                instruction,
                false,
            ),
            Action::Revoke { revoke } => {
                if revoke.accounts.source == *account {
                    self.delegate = None;
                }
                true
            },
            Action::CloseStakeState { destination } => true,
        }
    }

    /// Freezes or thaws `account` as `instruction` asks, where its delegate
    /// asks for it.
    fn set_frozen(&mut self, account: &Address, instruction: &Instruction, frozen: bool) -> (done:
        bool)
        ensures
            done == match delegated_target(instruction@) {
                Some((delegate, target)) => target != *account || old(self).delegate == Some(
                    delegate,
                ),
                None => false,
            },
            done ==> final(self).delegate == old(self).delegate,
            done ==> final(self).frozen == match delegated_target(instruction@) {
                Some((delegate, target)) => if target == *account {
                    frozen
                } else {
                    old(self).frozen
                },
                None => old(self).frozen,
            },
            !done ==> *final(self) == *old(self),
    {
        if instruction.accounts.len() < 2 {
            return false;
        }
        let delegate: Address = instruction.accounts[0].pubkey;
        let target: Address = instruction.accounts[1].pubkey;
        if target != *account {
            return true;
        }
        match self.delegate {
            Some(current) => {
                if current == delegate {
                    self.frozen = frozen;
                    true
                } else {
                    false
                }
            },
            None => false,
        }
    }

    /// Does `actions` in order to the hold on `account`, unless one of them
    /// is refused: then none is done. Says whether they were done.
    pub fn apply_all(&mut self, account: &Address, actions: &Vec<Action>) -> (done: bool)
        ensures
            done == custody_after(action_views(actions@), *account, *old(self)).is_some(),
            done ==> Some(*final(self)) == custody_after(
                action_views(actions@),
                *account,
                *old(self),
            ),
            !done ==> *final(self) == *old(self),
    {
        let ghost all = action_views(actions@);
        let before: Custody = *self;
        let mut index: usize = 0;
        assert(all.skip(0) =~= all);
        while index < actions.len()
            invariant
                index <= actions.len(),
                all == action_views(actions@),
                before == *old(self),
                custody_after(all, *account, before) == custody_after(
                    all.skip(index as int),
                    *account,
                    *self,
                ),
            decreases actions.len() - index,
        {
            let ghost rest = all.skip(index as int);
            assert(rest.len() > 0);
            assert(rest[0] == actions@[index as int]@);
            assert(rest.drop_first() =~= all.skip(index + 1));
            if !self.apply(account, &actions[index]) {
                *self = before;
                return false;
            }
            index += 1;
        }
        assert(all.skip(index as int).len() == 0);
        true
    }
}

} // verus!
