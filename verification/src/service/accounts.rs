//! Account use-cases: list, create (validate, insert, re-read), update of
//! the name only (fetch, overwrite, persist, re-read), delete by id.

use vstd::prelude::*;
use crate::domain::errors::BudgetServiceError;
use crate::domain::models::{Account, AccountError, AccountType};
use crate::service::budget::{
    account_ids_wf, account_index, has_account_id, remove_account_by_id, AccountRepository,
    BudgetRepository, BudgetServiceImpl, BudgetStore,
};

verus! {

/// Command to create an account from raw client input.
pub struct CreateAccountCmd {
    pub name: String,
    pub account_type: String,
    pub initial_balance: i64,
}

/// Command to rename an account; no other field is touched.
pub struct UpdateAccountCmd {
    pub id: i64,
    pub name: String,
}

/// The account use-cases, stated over the view of the stored account rows.
/// Every write validates before mutating and re-reads the canonical state
/// after mutating, so a returned entity is always the stored one.
pub trait BudgetAccountsService: BudgetStore {
    /// Returns all stored accounts, in no promised order.
    fn list_accounts(&self) -> (r: Result<Vec<Account>, BudgetServiceError>)
        ensures
            r matches Ok(v) ==> v@.to_multiset() == self.accounts().to_multiset(),
    ;

    /// Creates an account: an unknown account-type label is rejected before
    /// any write; on success the returned account is the stored row, under a
    /// fresh positive identity, carrying exactly the command's fields.
    fn create_account(&mut self, cmd: CreateAccountCmd) -> (r: Result<
        Account,
        BudgetServiceError,
    >)
        requires
            account_ids_wf(old(self).accounts()),
        ensures
            account_ids_wf(final(self).accounts()),
            final(self).categories() == old(self).categories(),
            final(self).records() == old(self).records(),
            r matches Err(e) ==> e is AccountValidationError || e is EntityNotFoundError
                || e is DatabaseError,
            r matches Err(e) ==> (e is AccountValidationError ==> AccountType::spec_of_label(
                cmd.account_type@,
            ) is None),
            AccountType::spec_of_label(cmd.account_type@) is None ==> r == Err::<
                Account,
                BudgetServiceError,
            >(BudgetServiceError::AccountValidationError(AccountError::UnknownAcountType)) && final(self).accounts() == old(self).accounts(),
            r matches Ok(a) ==> Some(a.account_type) == AccountType::spec_of_label(
                cmd.account_type@,
            ) && a.id > 0 && !has_account_id(old(self).accounts(), a.id) && a == (Account {
                id: a.id,
                name: cmd.name,
                account_type: a.account_type,
                balance: cmd.initial_balance,
            }) && final(self).accounts() == old(self).accounts().push(a),
            r is Err ==> final(self).accounts() == old(self).accounts() || (exists|
                aid: i64,
                t: AccountType,
            |
                aid > 0 && Some(t) == AccountType::spec_of_label(cmd.account_type@) && final(self).accounts() == old(self).accounts().push(
                    (Account {
                        id: aid,
                        name: cmd.name,
                        account_type: t,
                        balance: cmd.initial_balance,
                    }),
                )),
    ;

    /// Renames an account: the row is fetched, only its name overwritten,
    /// persisted, and re-read; an absent id fails without writing.
    fn update_account(&mut self, cmd: UpdateAccountCmd) -> (r: Result<
        Account,
        BudgetServiceError,
    >)
        requires
            account_ids_wf(old(self).accounts()),
        ensures
            account_ids_wf(final(self).accounts()),
            final(self).categories() == old(self).categories(),
            final(self).records() == old(self).records(),
            r matches Err(e) ==> e is EntityNotFoundError || e is DatabaseError,
            !has_account_id(old(self).accounts(), cmd.id) ==> r is Err && final(self).accounts()
                == old(self).accounts(),
            r matches Ok(a) ==> has_account_id(old(self).accounts(), cmd.id) && a == (Account {
                name: cmd.name,
                ..old(self).accounts()[account_index(old(self).accounts(), cmd.id)]
            }) && final(self).accounts() == old(self).accounts().update(
                account_index(old(self).accounts(), cmd.id),
                a,
            ),
            r is Err ==> final(self).accounts() == old(self).accounts() || (has_account_id(
                old(self).accounts(),
                cmd.id,
            ) && final(self).accounts() == old(self).accounts().update(
                account_index(old(self).accounts(), cmd.id),
                (Account {
                    name: cmd.name,
                    ..old(self).accounts()[account_index(old(self).accounts(), cmd.id)]
                }),
            )),
    ;

    /// Deletes by id; deleting an absent id is not an error distinct from a
    /// successful delete.
    fn delete_account(&mut self, id: i64) -> (r: Result<(), BudgetServiceError>)
        requires
            account_ids_wf(old(self).accounts()),
        ensures
            account_ids_wf(final(self).accounts()),
            final(self).categories() == old(self).categories(),
            final(self).records() == old(self).records(),
            r matches Err(e) ==> e is EntityNotFoundError || e is DatabaseError,
            r is Ok ==> final(self).accounts() == remove_account_by_id(old(self).accounts(), id),
            r is Err ==> final(self).accounts() == old(self).accounts(),
    ;
}

impl<T: BudgetRepository> BudgetAccountsService for BudgetServiceImpl<T> {
    fn list_accounts(&self) -> (r: Result<Vec<Account>, BudgetServiceError>) {
        self.repo.list_accounts()
    }

    fn create_account(&mut self, cmd: CreateAccountCmd) -> (r: Result<
        Account,
        BudgetServiceError,
    >) {
        let acc = match Account::new(cmd.name, cmd.initial_balance, cmd.account_type) {
            Ok(acc) => acc,
            Err(e) => {
                return Err(BudgetServiceError::AccountValidationError(e));
            },
        };
        let ghost acc0 = acc;
        let acc_id = match self.repo.create_account(acc) {
            Ok(id) => id,
            Err(e) => {
                return Err(e);
            },
        };
        let fetched = match self.repo.get_account_by_id(acc_id) {
            Ok(a) => a,
            Err(e) => {
                return Err(e);
            },
        };
        proof {
            let s = old(self).repo.accounts();
            let pushed = Account { id: acc_id, ..acc0 };
            assert(self.repo.accounts() == s.push(pushed));
            let j = choose|j: int|
                0 <= j < self.repo.accounts().len() && self.repo.accounts()[j] == fetched;
            assert(self.repo.accounts()[j] == fetched);
            if j < s.len() {
                assert(s[j].id != acc_id);
                assert(false);
            }
            assert(fetched == pushed);
        }
        Ok(fetched)
    }

    fn update_account(&mut self, cmd: UpdateAccountCmd) -> (r: Result<
        Account,
        BudgetServiceError,
    >) {
        let mut acc = match self.repo.get_account_by_id(cmd.id) {
            Ok(a) => a,
            Err(e) => {
                return Err(e);
            },
        };
        proof {
            let s = old(self).repo.accounts();
            let j = choose|j: int| 0 <= j < s.len() && s[j] == acc;
            assert(s[j].id == cmd.id);
            assert(has_account_id(s, cmd.id));
            let i = account_index(s, cmd.id);
            assert(s[i].id == cmd.id);
            assert(j == i);
        }
        acc.name = cmd.name;
        let ghost updated = acc;
        match self.repo.update_account(acc) {
            Ok(()) => (),
            Err(e) => {
                return Err(e);
            },
        };
        let fetched = match self.repo.get_account_by_id(cmd.id) {
            Ok(a) => a,
            Err(e) => {
                return Err(e);
            },
        };
        proof {
            let s = old(self).repo.accounts();
            let i = account_index(s, cmd.id);
            let ns = self.repo.accounts();
            assert(ns == s.update(i, updated));
            let j = choose|j: int| 0 <= j < ns.len() && ns[j] == fetched;
            assert(ns[j] == fetched);
            assert(ns[i] == updated);
            if j != i {
                assert(ns[j] == s[j]);
                assert(s[j].id != s[i].id);
                assert(false);
            }
            assert(fetched == updated);
        }
        Ok(fetched)
    }

    fn delete_account(&mut self, id: i64) -> (r: Result<(), BudgetServiceError>) {
        self.repo.delete_account(id)
    }
}

} // verus!
