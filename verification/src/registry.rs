//! The process-wide account registry.
//!
//! A single mapping from account identifier to account state; it is the one
//! source of truth for which accounts exist. Identifiers are handed out from
//! a counter that only grows, so an identifier is never reused once its
//! account is removed. In the running system the mapping sits behind the
//! process's one read/write coordination point; every per-account operation
//! takes only a single lookup there and then works on the account alone, so
//! it never moves the identifier set, the selection, or any other account —
//! which is exactly what the contracts here pin down.

use vstd::prelude::*;

use crate::account::{
    batch_set_rel, configure_begin_rel, configure_finish_rel, res_view, set_config_rel,
    stop_ongoing_rel, AccountState, CoreOutcome,
};
use crate::config::{opt_view, ConfigKey};
use crate::errors::{ErrorKind, Failure};

verus! {

/// The first account state listed under `id`, scanning from the front.
/// With distinct identifiers — which well-formedness guarantees — this is
/// the account registered under `id`, if any.
pub open spec fn find_state(s: Seq<(u32, AccountState)>, id: u32) -> Option<AccountState>
    decreases s.len(),
{
    if s.len() == 0 {
        None
    } else if s[0].0 == id {
        Some(s[0].1)
    } else {
        find_state(s.drop_first(), id)
    }
}

/// An entry at `i` whose identifier no earlier entry carries is the one
/// `find_state` returns.
proof fn lemma_find_at_index(s: Seq<(u32, AccountState)>, i: int, id: u32)
    requires
        0 <= i < s.len(),
        s[i].0 == id,
        forall|j: int| 0 <= j < i ==> s[j].0 != id,
    ensures
        find_state(s, id) == Some(s[i].1),
    decreases i,
{
    if i > 0 {
        lemma_find_at_index(s.drop_first(), i - 1, id);
    }
}

/// Where no entry carries `id`, `find_state` reports none.
proof fn lemma_find_none(s: Seq<(u32, AccountState)>, id: u32)
    requires
        forall|j: int| 0 <= j < s.len() ==> s[j].0 != id,
    ensures
        find_state(s, id) is None,
    decreases s.len(),
{
    if s.len() > 0 {
        lemma_find_none(s.drop_first(), id);
    }
}

/// Replacing the entry at `i` without changing its identifier leaves every
/// other identifier's lookup alone.
proof fn lemma_find_update_other(
    s: Seq<(u32, AccountState)>,
    i: int,
    e: (u32, AccountState),
    id2: u32,
)
    requires
        0 <= i < s.len(),
        e.0 == s[i].0,
        id2 != e.0,
    ensures
        find_state(s.update(i, e), id2) == find_state(s, id2),
    decreases s.len(),
{
    if i == 0 {
        assert(s.update(0, e).drop_first() =~= s.drop_first());
    } else {
        assert(s.update(i, e)[0] == s[0]);
        if s[0].0 != id2 {
            assert(s.update(i, e).drop_first() =~= s.drop_first().update(i - 1, e));
            lemma_find_update_other(s.drop_first(), i - 1, e, id2);
        }
    }
}

/// Removing the entry at `i` leaves every other identifier's lookup alone.
proof fn lemma_find_remove_other(s: Seq<(u32, AccountState)>, i: int, id2: u32)
    requires
        0 <= i < s.len(),
        s[i].0 != id2,
    ensures
        find_state(s.remove(i), id2) == find_state(s, id2),
    decreases s.len(),
{
    if i == 0 {
        assert(s.remove(0) =~= s.drop_first());
    } else {
        assert(s.remove(i)[0] == s[0]);
        if s[0].0 != id2 {
            assert(s.remove(i).drop_first() =~= s.drop_first().remove(i - 1));
            lemma_find_remove_other(s.drop_first(), i - 1, id2);
        }
    }
}

/// Appending an entry with another identifier leaves a lookup alone.
proof fn lemma_find_push_other(s: Seq<(u32, AccountState)>, e: (u32, AccountState), id2: u32)
    requires
        e.0 != id2,
    ensures
        find_state(s.push(e), id2) == find_state(s, id2),
    decreases s.len(),
{
    if s.len() == 0 {
        assert(s.push(e)[0] == e);
        assert(s.push(e).drop_first() =~= s);
    } else {
        assert(s.push(e)[0] == s[0]);
        if s[0].0 != id2 {
            assert(s.push(e).drop_first() =~= s.drop_first().push(e));
            lemma_find_push_other(s.drop_first(), e, id2);
        }
    }
}

/// A lookup succeeds exactly when the identifier is listed.
proof fn lemma_find_iff_contains(s: Seq<(u32, AccountState)>, id: u32)
    ensures
        (find_state(s, id) is Some) <==> s.map_values(|p: (u32, AccountState)| p.0).contains(id),
    decreases s.len(),
{
    let ids = s.map_values(|p: (u32, AccountState)| p.0);
    if s.len() == 0 {
        assert(ids.len() == 0);
    } else {
        lemma_find_iff_contains(s.drop_first(), id);
        let rest = s.drop_first().map_values(|p: (u32, AccountState)| p.0);
        if s[0].0 == id {
            assert(ids[0] == id);
        } else {
            if rest.contains(id) {
                let w = choose|w: int| 0 <= w < rest.len() && rest[w] == id;
                assert(ids[w + 1] == id);
            }
            if ids.contains(id) {
                let w = choose|w: int| 0 <= w < ids.len() && ids[w] == id;
                assert(w != 0);
                assert(rest[w - 1] == id);
            }
        }
    }
}

/// The top-level record the account listing reports per account.
#[derive(Debug)]
pub struct AccountInfo {
    pub id: u32,
    pub configured: bool,
    pub addr: Option<String>,
    pub display_name: Option<String>,
}

/// The registry: identifier-to-account mapping, the identifier counter, and
/// the internally selected account.
pub struct Registry {
    accounts: Vec<(u32, AccountState)>,
    next_id: u32,
    selected: Option<u32>,
}

impl Registry {
    /// The registered entries, in creation order.
    pub closed spec fn entries(self) -> Seq<(u32, AccountState)> {
        self.accounts@
    }

    /// The registered identifiers, in creation order.
    pub open spec fn ids(self) -> Seq<u32> {
        self.entries().map_values(|p: (u32, AccountState)| p.0)
    }

    /// The account registered under `id`, if any.
    pub open spec fn acct(self, id: u32) -> Option<AccountState> {
        find_state(self.entries(), id)
    }

    /// Whether an account is registered under `id`.
    pub open spec fn has(self, id: u32) -> bool {
        self.acct(id) is Some
    }

    /// The identifier the next created account will get.
    pub closed spec fn spec_next_id(self) -> u32 {
        self.next_id
    }

    /// The internally selected account, if any.
    pub closed spec fn spec_selected(self) -> Option<u32> {
        self.selected
    }

    pub open spec fn wf(self) -> bool {
        &&& forall|i: int, j: int|
            0 <= i < j < self.entries().len() ==> self.entries()[i].0 < self.entries()[j].0
        &&& forall|i: int|
            0 <= i < self.entries().len() ==> 1 <= (#[trigger] self.entries()[i]).0
                < self.spec_next_id()
        &&& self.spec_next_id() >= 1
        &&& self.spec_selected() matches Some(s) ==> self.has(s)
    }

    /// An empty registry: no account exists, none is selected, and the
    /// first created account will get identifier 1.
    pub fn new() -> (r: Registry)
        ensures
            r.wf(),
            r.ids() == Seq::<u32>::empty(),
            r.spec_selected() is None,
            r.spec_next_id() == 1,
            forall|id: u32| r.acct(id) is None,
    {
        let r = Registry { accounts: Vec::new(), next_id: 1, selected: None };
        proof {
            assert(r.ids() =~= Seq::<u32>::empty());
            assert forall|id: u32| r.acct(id) is None by {
                lemma_find_none(r.entries(), id);
            }
        }
        r
    }

    /// The position of `id` among the entries, with its lookup pinned.
    fn find_index(&self, id: u32) -> (r: Option<usize>)
        ensures
            match r {
                Some(i) => i < self.entries().len() && self.entries()[i as int].0 == id
                    && self.acct(id) == Some(self.entries()[i as int].1),
                None => self.acct(id) is None,
            },
    {
        let n = self.accounts.len();
        let mut i: usize = 0;
        while i < n
            invariant
                n == self.entries().len(),
                i <= n,
                forall|j: int| 0 <= j < i ==> self.entries()[j].0 != id,
            decreases n - i,
        {
            if self.accounts[i].0 == id {
                proof {
                    lemma_find_at_index(self.entries(), i as int, id);
                }
                return Some(i);
            }
            i = i + 1;
        }
        proof {
            lemma_find_none(self.entries(), id);
        }
        None
    }

    /// Creates an account under a fresh identifier, which is returned. The
    /// identifier was never in use before and the account starts fresh:
    /// unconfigured, I/O stopped, nothing set. Every other account, the
    /// selection and the listing order are untouched. Creation is only
    /// refused when the identifier space is exhausted.
    pub fn add_account(&mut self) -> (r: Result<u32, ErrorKind>)
        requires
            old(self).wf(),
        ensures
            final(self).wf(),
            r is Err <==> old(self).spec_next_id() == u32::MAX,
            r is Err ==> r == Err::<u32, ErrorKind>(ErrorKind::CoreOperationFailed) && *final(self)
                == *old(self),
            r matches Ok(id) ==> {
                &&& id == old(self).spec_next_id()
                &&& !old(self).has(id)
                &&& final(self).spec_next_id() == id + 1
                &&& final(self).ids() == old(self).ids().push(id)
                &&& final(self).acct(id) matches Some(a) && a.spec_fresh()
                &&& forall|id2: u32| id2 != id ==> final(self).acct(id2) == old(self).acct(id2)
                &&& final(self).spec_selected() == old(self).spec_selected()
            },
    {
        if self.next_id == u32::MAX {
            return Err(ErrorKind::CoreOperationFailed);
        }
        let id = self.next_id;
        self.next_id = id + 1;
        self.accounts.push((id, AccountState::new()));
        proof {
            let pre = old(self).entries();
            let post = self.entries();
            assert forall|j: int| 0 <= j < pre.len() implies pre[j].0 != id by {
                assert(pre[j].0 < id);
            }
            lemma_find_none(pre, id);
            lemma_find_at_index(post, pre.len() as int, id);
            assert forall|id2: u32| id2 != id implies find_state(post, id2) == find_state(
                pre,
                id2,
            ) by {
                lemma_find_push_other(pre, post.last(), id2);
            }
            assert(self.ids() =~= old(self).ids().push(id));
            if let Some(s) = self.spec_selected() {
                assert(self.has(s));
            }
        }
        Ok(id)
    }

    /// Lists the identifiers of all registered accounts, in creation order.
    pub fn get_all_account_ids(&self) -> (r: Vec<u32>)
        ensures
            r@ == self.ids(),
    {
        let n = self.accounts.len();
        let mut out: Vec<u32> = Vec::new();
        let mut i: usize = 0;
        while i < n
            invariant
                n == self.entries().len(),
                i <= n,
                out@.len() == i,
                forall|m: int| 0 <= m < i ==> out@[m] == self.entries()[m].0,
            decreases n - i,
        {
            out.push(self.accounts[i].0);
            i = i + 1;
        }
        proof {
            assert(out@ =~= self.ids());
        }
        out
    }

    /// Removes the account under `id`; its identifier is dead from then on:
    /// it is no longer listed, every later call naming it fails with
    /// `AccountNotFound`, and no later creation hands it out again. If it
    /// was the selected account, nothing is selected afterwards. Every
    /// other account is untouched.
    pub fn remove_account(&mut self, id: u32) -> (r: Result<(), ErrorKind>)
        requires
            old(self).wf(),
        ensures
            final(self).wf(),
            !old(self).has(id) ==> r == Err::<(), ErrorKind>(ErrorKind::AccountNotFound) && *final(self) == *old(self),
            old(self).has(id) ==> {
                &&& r is Ok
                &&& !final(self).has(id)
                &&& !final(self).ids().contains(id)
                &&& final(self).ids().len() == old(self).ids().len() - 1
                &&& exists|i: int|
                    0 <= i < old(self).ids().len() && old(self).ids()[i] == id && final(self).ids()
                        == old(self).ids().remove(i)
                &&& forall|id2: u32| id2 != id ==> final(self).acct(id2) == old(self).acct(id2)
                &&& final(self).spec_selected() == (if old(self).spec_selected() == Some(id) {
                    None
                } else {
                    old(self).spec_selected()
                })
                &&& final(self).spec_next_id() == old(self).spec_next_id()
            },
    {
        match self.find_index(id) {
            None => Err(ErrorKind::AccountNotFound),
            Some(i) => {
                let ghost pre = self.entries();
                self.accounts.remove(i);
                if let Some(s) = self.selected {
                    if s == id {
                        self.selected = None;
                    }
                }
                proof {
                    let post = self.entries();
                    assert forall|j: int| 0 <= j < pre.len() && j != i implies pre[j].0 != id by {
                        if j < i {
                            assert(pre[j].0 < pre[i as int].0);
                        } else {
                            assert(pre[i as int].0 < pre[j].0);
                        }
                    }
                    assert forall|j: int| 0 <= j < post.len() implies post[j].0 != id by {
                        if j < i {
                            assert(post[j] == pre[j]);
                        } else {
                            assert(post[j] == pre[j + 1]);
                        }
                    }
                    lemma_find_none(post, id);
                    assert forall|id2: u32| id2 != id implies find_state(post, id2) == find_state(
                        pre,
                        id2,
                    ) by {
                        lemma_find_remove_other(pre, i as int, id2);
                    }
                    assert(!self.ids().contains(id)) by {
                        if self.ids().contains(id) {
                            let w = choose|w: int| 0 <= w < post.len() && self.ids()[w] == id;
                            assert(post[w].0 == id);
                        }
                    }
                    assert(old(self).ids()[i as int] == id);
                    assert(self.ids() =~= old(self).ids().remove(i as int));
                    if let Some(s) = self.spec_selected() {
                        assert(s != id);
                        assert(self.has(s) == old(self).has(s));
                        assert(old(self).has(s));
                    }
                }
                Ok(())
            },
        }
    }

    /// Selects the account under `id` as the internal default. Fails with
    /// `AccountNotFound` for a dead or unknown identifier; nothing else
    /// moves either way.
    pub fn select_account(&mut self, id: u32) -> (r: Result<(), ErrorKind>)
        requires
            old(self).wf(),
        ensures
            final(self).wf(),
            !old(self).has(id) ==> r == Err::<(), ErrorKind>(ErrorKind::AccountNotFound) && *final(self) == *old(self),
            old(self).has(id) ==> {
                &&& r is Ok
                &&& final(self).spec_selected() == Some(id)
                &&& final(self).ids() == old(self).ids()
                &&& forall|id2: u32| final(self).acct(id2) == old(self).acct(id2)
                &&& final(self).spec_next_id() == old(self).spec_next_id()
            },
    {
        match self.find_index(id) {
            None => Err(ErrorKind::AccountNotFound),
            Some(_i) => {
                self.selected = Some(id);
                Ok(())
            },
        }
    }

    /// The identifier of the internally selected account, if any is
    /// selected.
    pub fn get_selected_account_id(&self) -> (r: Option<u32>)
        ensures
            r == self.spec_selected(),
    {
        self.selected
    }

    /// What every operation scoped to account `id` leaves alone: the
    /// identifier set and its order, the selection, the identifier counter,
    /// and every other account. A registry read interleaved with such an
    /// operation therefore sees the same registry.
    pub open spec fn same_but(self, post: Registry, id: u32) -> bool {
        &&& post.ids() == self.ids()
        &&& post.spec_selected() == self.spec_selected()
        &&& post.spec_next_id() == self.spec_next_id()
        &&& forall|id2: u32| id2 != id ==> post.acct(id2) == self.acct(id2)
    }

    /// Builds the listing record of one account from its state: identity,
    /// whether it ever configured, and the two display keys of its store.
    fn info_of(a: &AccountState, id: u32) -> (r: AccountInfo)
        ensures
            r.id == id,
            r.configured == a.spec_configured(),
            opt_view(r.addr) == a.cfg().val(ConfigKey::Addr),
            opt_view(r.display_name) == a.cfg().val(ConfigKey::Displayname),
    {
        AccountInfo {
            id,
            configured: a.is_configured(),
            addr: a.get_known(ConfigKey::Addr),
            display_name: a.get_known(ConfigKey::Displayname),
        }
    }

    /// The top-level record of the account under `id`.
    pub fn get_account_info(&self, id: u32) -> (r: Result<AccountInfo, ErrorKind>)
        ensures
            match r {
                Ok(info) => self.has(id) && {
                    let a = self.acct(id)->Some_0;
                    &&& info.id == id
                    &&& info.configured == a.spec_configured()
                    &&& opt_view(info.addr) == a.cfg().val(ConfigKey::Addr)
                    &&& opt_view(info.display_name) == a.cfg().val(ConfigKey::Displayname)
                },
                Err(e) => !self.has(id) && e == ErrorKind::AccountNotFound,
            },
    {
        match self.find_index(id) {
            None => Err(ErrorKind::AccountNotFound),
            Some(i) => Ok(Self::info_of(&self.accounts[i].1, id)),
        }
    }

    /// The records of all registered accounts, in creation order: one per
    /// listed identifier, each true to that account's state.
    pub fn get_all_accounts(&self) -> (r: Vec<AccountInfo>)
        requires
            self.wf(),
        ensures
            r@.len() == self.ids().len(),
            forall|i: int|
                0 <= i < r@.len() ==> {
                    let info = #[trigger] r@[i];
                    &&& info.id == self.ids()[i]
                    &&& self.acct(info.id) matches Some(a) && info.configured
                        == a.spec_configured() && opt_view(info.addr) == a.cfg().val(
                        ConfigKey::Addr,
                    ) && opt_view(info.display_name) == a.cfg().val(ConfigKey::Displayname)
                },
    {
        let n = self.accounts.len();
        let mut out: Vec<AccountInfo> = Vec::new();
        let mut i: usize = 0;
        while i < n
            invariant
                self.wf(),
                n == self.entries().len(),
                i <= n,
                out@.len() == i,
                forall|m: int|
                    0 <= m < i ==> {
                        let info = #[trigger] out@[m];
                        &&& info.id == self.ids()[m]
                        &&& self.acct(info.id) matches Some(a) && info.configured
                            == a.spec_configured() && opt_view(info.addr) == a.cfg().val(
                            ConfigKey::Addr,
                        ) && opt_view(info.display_name) == a.cfg().val(ConfigKey::Displayname)
                    },
            decreases n - i,
        {
            let id = self.accounts[i].0;
            proof {
                assert forall|j: int| 0 <= j < i implies self.entries()[j].0 != id by {
                    assert(self.entries()[j].0 < self.entries()[i as int].0);
                }
                lemma_find_at_index(self.entries(), i as int, id);
            }
            out.push(Self::info_of(&self.accounts[i].1, id));
            i = i + 1;
        }
        out
    }

    /// What a provider lookup for `email` on this account needs from the
    /// layer: the text the offline database is keyed on — after the last
    /// `@`, or the whole string — and whether the lookup must go through
    /// the proxy, which is on exactly when the proxy key is set to `1`.
    /// The database itself belongs to the core.
    pub fn provider_lookup_params(&self, id: u32, email: &str) -> (r: Result<
        (String, bool),
        ErrorKind,
    >)
        ensures
            match r {
                Ok(p) => self.has(id) && p.0@ == crate::email::spec_domain_part(email@) && p.1 == (
                self.acct(id)->Some_0.cfg().val(ConfigKey::Socks5Enabled) matches Some(v) && v
                    == "1"@),
                Err(e) => !self.has(id) && e == ErrorKind::AccountNotFound,
            },
    {
        match self.find_index(id) {
            None => Err(ErrorKind::AccountNotFound),
            Some(i) => {
                let proxied = match self.accounts[i].1.get_known(ConfigKey::Socks5Enabled) {
                    Some(v) => crate::config::str_eq(v.as_str(), "1"),
                    None => false,
                };
                Ok((crate::email::domain_part(email), proxied))
            },
        }
    }

    /// Whether a configure attempt ever succeeded for the account.
    pub fn is_configured(&self, id: u32) -> (r: Result<bool, ErrorKind>)
        ensures
            match r {
                Ok(b) => self.has(id) && b == self.acct(id)->Some_0.spec_configured(),
                Err(e) => !self.has(id) && e == ErrorKind::AccountNotFound,
            },
    {
        match self.find_index(id) {
            None => Err(ErrorKind::AccountNotFound),
            Some(i) => Ok(self.accounts[i].1.is_configured()),
        }
    }

    /// Whether the account's I/O is running.
    pub fn is_io_running(&self, id: u32) -> (r: Result<bool, ErrorKind>)
        ensures
            match r {
                Ok(b) => self.has(id) && b == self.acct(id)->Some_0.spec_io_running(),
                Err(e) => !self.has(id) && e == ErrorKind::AccountNotFound,
            },
    {
        match self.find_index(id) {
            None => Err(ErrorKind::AccountNotFound),
            Some(i) => Ok(self.accounts[i].1.is_io_running()),
        }
    }

    /// Whether the account's ongoing operation was asked to stop.
    pub fn is_stop_requested(&self, id: u32) -> (r: Result<bool, ErrorKind>)
        ensures
            match r {
                Ok(b) => self.has(id) && b == self.acct(id)->Some_0.spec_stop_requested(),
                Err(e) => !self.has(id) && e == ErrorKind::AccountNotFound,
            },
    {
        match self.find_index(id) {
            None => Err(ErrorKind::AccountNotFound),
            Some(i) => Ok(self.accounts[i].1.is_stop_requested()),
        }
    }

    /// Reads one configuration key of the account.
    pub fn get_config(&self, id: u32, key: &str) -> (r: Result<Option<String>, ErrorKind>)
        ensures
            !self.has(id) ==> r == Err::<Option<String>, ErrorKind>(ErrorKind::AccountNotFound),
            self.has(id) ==> res_view(r) == self.acct(id)->Some_0.spec_get_cfg(key@),
    {
        match self.find_index(id) {
            None => Err(ErrorKind::AccountNotFound),
            Some(i) => self.accounts[i].1.get_config(key),
        }
    }

    /// Reads a batch of configuration keys of the account, one collected
    /// result per key: a single unknown key yields its own error entry,
    /// never an abort of the batch.
    pub fn batch_get_config(&self, id: u32, keys: &Vec<String>) -> (r: Result<
        Vec<(String, Result<Option<String>, ErrorKind>)>,
        ErrorKind,
    >)
        ensures
            !self.has(id) ==> (r matches Err(e) && e == ErrorKind::AccountNotFound),
            self.has(id) ==> {
                &&& r matches Ok(list) && list@.len() == keys@.len() && (forall|i: int|
                    0 <= i < keys@.len() ==> (#[trigger] list@[i]).0@ == keys@[i]@ && res_view(
                        list@[i].1,
                    ) == self.acct(id)->Some_0.spec_get_cfg(keys@[i]@))
            },
    {
        match self.find_index(id) {
            None => Err(ErrorKind::AccountNotFound),
            Some(i) => Ok(self.accounts[i].1.batch_get_config(keys)),
        }
    }

    /// Writes one configuration key of the account; see
    /// [`set_config_rel`] for what is stored and when the caller must
    /// restart running I/O. The registry around the account never moves.
    pub fn set_config(&mut self, id: u32, key: &str, value: Option<String>) -> (r: Result<
        bool,
        ErrorKind,
    >)
        requires
            old(self).wf(),
        ensures
            final(self).wf(),
            !old(self).has(id) ==> r == Err::<bool, ErrorKind>(ErrorKind::AccountNotFound)
                && *final(self) == *old(self),
            old(self).has(id) ==> {
                &&& old(self).same_but(*final(self), id)
                &&& final(self).has(id)
                &&& set_config_rel(
                    old(self).acct(id)->Some_0,
                    final(self).acct(id)->Some_0,
                    key@,
                    crate::config::opt_view(value),
                    r,
                )
            },
    {
        match self.find_index(id) {
            None => Err(ErrorKind::AccountNotFound),
            Some(i) => {
                let ghost pre = self.entries();
                let entry = &mut self.accounts[i];
                let r = entry.1.set_config(key, value);
                proof {
                    self.lemma_after_entry_update(pre, i as int);
                }
                r
            },
        }
    }

    /// Writes a batch of configuration keys of the account, in order,
    /// aborting on the first unknown key, whose name is kept as context in
    /// the failure's message; see [`batch_set_rel`]. The registry around
    /// the account never moves.
    pub fn batch_set_config(&mut self, id: u32, pairs: &Vec<(String, Option<String>)>) -> (r:
        Result<bool, Failure>)
        requires
            old(self).wf(),
        ensures
            final(self).wf(),
            !old(self).has(id) ==> (r matches Err(f) && f.kind == ErrorKind::AccountNotFound
                && *final(self) == *old(self)),
            old(self).has(id) ==> {
                &&& old(self).same_but(*final(self), id)
                &&& final(self).has(id)
                &&& batch_set_rel(
                    old(self).acct(id)->Some_0,
                    final(self).acct(id)->Some_0,
                    pairs@,
                    match r {
                        Ok(b) => Ok(b),
                        Err(f) => Err((f.message@, f.kind)),
                    },
                )
            },
    {
        match self.find_index(id) {
            None => Err(Failure::of_kind(ErrorKind::AccountNotFound)),
            Some(i) => {
                let ghost pre = self.entries();
                let entry = &mut self.accounts[i];
                let r = entry.1.batch_set_config(pairs);
                proof {
                    self.lemma_after_entry_update(pre, i as int);
                }
                match r {
                    Ok(restart) => Ok(restart),
                    Err(f) => Err(Failure::with_message(f.kind, f.key)),
                }
            },
        }
    }

    /// Asks the account's ongoing operation to stop; cooperative, never
    /// preemptive. The registry around the account never moves.
    pub fn stop_ongoing_process(&mut self, id: u32) -> (r: Result<(), ErrorKind>)
        requires
            old(self).wf(),
        ensures
            final(self).wf(),
            !old(self).has(id) ==> r == Err::<(), ErrorKind>(ErrorKind::AccountNotFound) && *final(self) == *old(self),
            old(self).has(id) ==> {
                &&& r is Ok
                &&& old(self).same_but(*final(self), id)
                &&& final(self).has(id)
                &&& stop_ongoing_rel(old(self).acct(id)->Some_0, final(self).acct(id)->Some_0)
            },
    {
        match self.find_index(id) {
            None => Err(ErrorKind::AccountNotFound),
            Some(i) => {
                let ghost pre = self.entries();
                let entry = &mut self.accounts[i];
                entry.1.stop_ongoing();
                proof {
                    self.lemma_after_entry_update(pre, i as int);
                }
                Ok(())
            },
        }
    }

    /// Enters the configure protocol for the account: stops its I/O
    /// unconditionally and rearms its cancellation flag. The caller then
    /// makes the core attempt and must feed the outcome to
    /// [`Registry::configure_finish`]. The registry around the account
    /// never moves, so a registry read issued while the attempt runs sees
    /// the same accounts.
    pub fn configure_begin(&mut self, id: u32) -> (r: Result<(), ErrorKind>)
        requires
            old(self).wf(),
        ensures
            final(self).wf(),
            !old(self).has(id) ==> r == Err::<(), ErrorKind>(ErrorKind::AccountNotFound) && *final(self) == *old(self),
            old(self).has(id) ==> {
                &&& r is Ok
                &&& old(self).same_but(*final(self), id)
                &&& final(self).has(id)
                &&& configure_begin_rel(old(self).acct(id)->Some_0, final(self).acct(id)->Some_0)
            },
    {
        match self.find_index(id) {
            None => Err(ErrorKind::AccountNotFound),
            Some(i) => {
                let ghost pre = self.entries();
                let entry = &mut self.accounts[i];
                entry.1.configure_begin();
                proof {
                    self.lemma_after_entry_update(pre, i as int);
                }
                Ok(())
            },
        }
    }

    /// Leaves the configure protocol for the account with the core
    /// attempt's outcome; see [`configure_finish_rel`] for the compensation
    /// rule. The account's I/O must still be stopped, as
    /// [`Registry::configure_begin`] left it. The registry around the
    /// account never moves.
    pub fn configure_finish(&mut self, id: u32, outcome: CoreOutcome) -> (r: Result<(), Failure>)
        requires
            old(self).wf(),
            old(self).has(id) ==> !old(self).acct(id)->Some_0.spec_io_running(),
        ensures
            final(self).wf(),
            !old(self).has(id) ==> (r matches Err(f) && f.kind == ErrorKind::AccountNotFound
                && *final(self) == *old(self)),
            old(self).has(id) ==> {
                &&& old(self).same_but(*final(self), id)
                &&& final(self).has(id)
                &&& configure_finish_rel(
                    old(self).acct(id)->Some_0,
                    final(self).acct(id)->Some_0,
                    outcome,
                    r,
                )
            },
    {
        match self.find_index(id) {
            None => Err(Failure::of_kind(ErrorKind::AccountNotFound)),
            Some(i) => {
                let ghost pre = self.entries();
                let entry = &mut self.accounts[i];
                let r = entry.1.configure_finish(outcome);
                proof {
                    self.lemma_after_entry_update(pre, i as int);
                }
                r
            },
        }
    }

    /// After an in-place update of the account at `i` that kept its
    /// identifier, the lookup of that identifier yields the new state,
    /// every other lookup is unchanged, and the identifier list, counter
    /// and selection are unchanged — which also keeps well-formedness.
    proof fn lemma_after_entry_update(self, pre: Seq<(u32, AccountState)>, i: int)
        requires
            0 <= i < pre.len(),
            self.entries().len() == pre.len(),
            self.entries() == pre.update(i, (pre[i].0, self.entries()[i].1)),
            forall|a: int, b: int| 0 <= a < b < pre.len() ==> pre[a].0 < pre[b].0,
        ensures
            find_state(self.entries(), pre[i].0) == Some(self.entries()[i].1),
            forall|id2: u32|
                id2 != pre[i].0 ==> find_state(self.entries(), id2) == find_state(pre, id2),
            self.entries().map_values(|p: (u32, AccountState)| p.0) == pre.map_values(
                |p: (u32, AccountState)| p.0,
            ),
            forall|a: int, b: int|
                0 <= a < b < self.entries().len() ==> self.entries()[a].0 < self.entries()[b].0,
            forall|id2: u32|
                (find_state(self.entries(), id2) is Some) == (find_state(pre, id2) is Some),
    {
        let post = self.entries();
        assert forall|j: int| 0 <= j < i implies post[j].0 != pre[i].0 by {
            assert(pre[j].0 < pre[i].0);
        }
        lemma_find_at_index(post, i, pre[i].0);
        assert forall|j: int| 0 <= j < i implies pre[j].0 != pre[i].0 by {
            assert(pre[j].0 < pre[i].0);
        }
        lemma_find_at_index(pre, i, pre[i].0);
        assert forall|id2: u32| id2 != pre[i].0 implies find_state(post, id2) == find_state(
            pre,
            id2,
        ) by {
            lemma_find_update_other(pre, i, (pre[i].0, post[i].1), id2);
        }
        assert(post.map_values(|p: (u32, AccountState)| p.0) =~= pre.map_values(
            |p: (u32, AccountState)| p.0,
        ));
    }
}

/// Law: the listing is the membership. An identifier appears in
/// `get_all_account_ids`' result — which is exactly `ids()` — precisely
/// when an account is registered under it. With `add_account`'s contract
/// (the new identifier is appended) a created account is listed at once;
/// with `remove_account`'s (the identifier is dropped and dead) a removed
/// one is listed no more, and every later account-scoped call naming it
/// reports `AccountNotFound` by that call's own contract.
pub proof fn lemma_listed_iff_present(r: Registry, id: u32)
    ensures
        r.ids().contains(id) <==> r.has(id),
{
    lemma_find_iff_contains(r.entries(), id);
}

/// Law: work scoped to one account never blocks what a registry read
/// returns. Every account-scoped operation ensures `same_but` for its
/// account: the identifier list, the selection and every other account are
/// exactly as before. A listing or lookup interleaved anywhere between
/// such steps — say, while another account's configure attempt is in
/// flight between its begin and finish steps — therefore returns the same
/// value it would have returned before them, which is why the running
/// system only needs the registry lock for the one lookup itself.
pub proof fn lemma_account_step_isolates_reads(pre: Registry, post: Registry, id: u32, id2: u32)
    requires
        pre.same_but(post, id),
    ensures
        post.ids() == pre.ids(),
        post.spec_selected() == pre.spec_selected(),
        post.spec_next_id() == pre.spec_next_id(),
        id2 != id ==> post.acct(id2) == pre.acct(id2),
        id2 != id ==> post.has(id2) == pre.has(id2),
{
}

} // verus!
