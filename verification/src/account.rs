//! The state of one account, as this layer observes it.
//!
//! An account is one messaging identity: a key/value configuration store, a
//! configured flag, an I/O running/stopped flag, and a cancellation flag for
//! the ongoing long operation. The core performs the actual network work;
//! the functions here are the decisions the layer owns. Where a decision
//! depends on how a core attempt went, the function takes the attempt's
//! [`CoreOutcome`] as an argument and is verified for every possible
//! outcome.

use vstd::prelude::*;

use crate::config::{
    batch_known_value, batch_restart, batch_ui_value, first_bad_key, key_ok, opt_view,
    spec_is_ui_key, spec_parse_key, spec_restarts_io, is_ui_key, parse_key, restarts_io,
    ConfigKey, ConfigStore,
};
use crate::errors::{BatchKeyFailure, ErrorKind, Failure};

verus! {

/// How a core operation that was forwarded for this account came back.
pub enum CoreOutcome {
    /// The core reported success.
    Done,
    /// The core reported failure; its message is kept verbatim.
    Failed(String),
    /// The caller's cancellation request took effect before the operation
    /// finished; the core's message is kept verbatim.
    Interrupted(String),
}

/// The view of a configuration read result, for contracts.
pub open spec fn res_view(r: Result<Option<String>, ErrorKind>) -> Result<
    Option<Seq<char>>,
    ErrorKind,
> {
    match r {
        Ok(v) => Ok(opt_view(v)),
        Err(e) => Err(e),
    }
}

/// How one configuration write moves an account from `pre` to `post` and
/// what it returns: a UI-local key is stored as supplied; a known key is
/// stored and reports whether I/O must be restarted; an unknown key fails
/// with `UnknownConfigKey` and moves nothing. The account's flags never
/// move, and no other key does.
pub open spec fn set_config_rel(
    pre: AccountState,
    post: AccountState,
    key: Seq<char>,
    value: Option<Seq<char>>,
    r: Result<bool, ErrorKind>,
) -> bool {
    &&& post.spec_configured() == pre.spec_configured()
    &&& post.spec_io_running() == pre.spec_io_running()
    &&& post.spec_stop_requested() == pre.spec_stop_requested()
    &&& spec_is_ui_key(key) ==> {
        &&& r == Ok::<bool, ErrorKind>(false)
        &&& post.cfg().ui_val(key) == value
        &&& forall|key2: Seq<char>| key2 != key ==> post.cfg().ui_val(key2) == pre.cfg().ui_val(key2)
        &&& forall|k2: ConfigKey| post.cfg().val(k2) == pre.cfg().val(k2)
    }
    &&& (!spec_is_ui_key(key) && spec_parse_key(key) is None) ==> {
        &&& r == Err::<bool, ErrorKind>(ErrorKind::UnknownConfigKey)
        &&& post == pre
    }
    &&& (!spec_is_ui_key(key) && spec_parse_key(key) is Some) ==> {
        let k = spec_parse_key(key)->Some_0;
        &&& r == Ok::<bool, ErrorKind>(spec_restarts_io(k))
        &&& post.cfg().val(k) == value
        &&& forall|k2: ConfigKey| k2 != k ==> post.cfg().val(k2) == pre.cfg().val(k2)
        &&& forall|key2: Seq<char>| post.cfg().ui_val(key2) == pre.cfg().ui_val(key2)
    }
}

/// How a batch configuration write moves an account from `pre` to `post`
/// and what it returns, with the failure abstracted to the offending key
/// and category. The writes apply in order, the last write to a key wins,
/// and the batch aborts on its first unknown key: the pairs before it stay
/// applied, the pairs after it are never touched. The flags never move.
pub open spec fn batch_set_rel(
    pre: AccountState,
    post: AccountState,
    pairs: Seq<(String, Option<String>)>,
    outcome: Result<bool, (Seq<char>, ErrorKind)>,
) -> bool {
    &&& post.spec_configured() == pre.spec_configured()
    &&& post.spec_io_running() == pre.spec_io_running()
    &&& post.spec_stop_requested() == pre.spec_stop_requested()
    &&& match first_bad_key(pairs) {
        None => {
            &&& outcome matches Ok(restart) && restart == batch_restart(pairs)
            &&& forall|k: ConfigKey| post.cfg().val(k) == batch_known_value(pairs, k, pre.cfg().val(k))
            &&& forall|key: Seq<char>|
                post.cfg().ui_val(key) == batch_ui_value(pairs, key, pre.cfg().ui_val(key))
        },
        Some(i) => {
            &&& outcome matches Err(e) && e.0 == pairs[i].0@ && e.1 == ErrorKind::UnknownConfigKey
            &&& forall|k: ConfigKey|
                post.cfg().val(k) == batch_known_value(pairs.take(i), k, pre.cfg().val(k))
            &&& forall|key: Seq<char>|
                post.cfg().ui_val(key) == batch_ui_value(pairs.take(i), key, pre.cfg().ui_val(key))
        },
    }
}

/// How asking the ongoing operation to stop moves an account: the flag is
/// raised and nothing else moves.
pub open spec fn stop_ongoing_rel(pre: AccountState, post: AccountState) -> bool {
    &&& post.spec_stop_requested()
    &&& post.spec_configured() == pre.spec_configured()
    &&& post.spec_io_running() == pre.spec_io_running()
    &&& post.cfg() == pre.cfg()
}

/// How entering the configure protocol moves an account: I/O stops
/// unconditionally, the cancellation flag is rearmed, and nothing else
/// moves.
pub open spec fn configure_begin_rel(pre: AccountState, post: AccountState) -> bool {
    &&& !post.spec_io_running()
    &&& !post.spec_stop_requested()
    &&& post.spec_configured() == pre.spec_configured()
    &&& post.cfg() == pre.cfg()
}

/// How leaving the configure protocol with the core attempt's `outcome`
/// moves an account. On success the account is configured and I/O runs. On
/// failure or cancellation the failure is passed through with the core's
/// message, and I/O runs again only if the account was already configured
/// by an earlier success: a working account is not left offline, and one
/// that never configured stays stopped.
pub open spec fn configure_finish_rel(
    pre: AccountState,
    post: AccountState,
    outcome: CoreOutcome,
    r: Result<(), Failure>,
) -> bool {
    &&& post.cfg() == pre.cfg()
    &&& post.spec_stop_requested() == pre.spec_stop_requested()
    &&& match outcome {
        CoreOutcome::Done => {
            &&& r is Ok
            &&& post.spec_configured()
            &&& post.spec_io_running()
        },
        CoreOutcome::Failed(msg) => {
            &&& r matches Err(f) && f.kind == ErrorKind::CoreOperationFailed && f.message == msg
            &&& post.spec_configured() == pre.spec_configured()
            &&& post.spec_io_running() == pre.spec_configured()
        },
        CoreOutcome::Interrupted(msg) => {
            &&& r matches Err(f) && f.kind == ErrorKind::Cancelled && f.message == msg
            &&& post.spec_configured() == pre.spec_configured()
            &&& post.spec_io_running() == pre.spec_configured()
        },
    }
}

/// Law: the configure protocol never strands a working account and never
/// pretends for a broken one. From any account whose I/O the protocol's
/// entry step stopped, finishing with a failed or interrupted attempt
/// leaves an account that was never configured with I/O stopped and still
/// unconfigured, while an account configured by an earlier success keeps
/// its configuration and gets its I/O back; a successful attempt always
/// leaves the account configured with I/O running. So "claims configured
/// but I/O stopped" is impossible unless the account genuinely never
/// configured.
pub proof fn lemma_configure_compensation(
    pre: AccountState,
    post: AccountState,
    outcome: CoreOutcome,
    r: Result<(), Failure>,
)
    requires
        !pre.spec_io_running(),
        configure_finish_rel(pre, post, outcome, r),
    ensures
        (outcome matches CoreOutcome::Failed(_) && !pre.spec_configured()) ==> (
        !post.spec_io_running() && !post.spec_configured() && r is Err),
        (outcome matches CoreOutcome::Failed(_) && pre.spec_configured()) ==> (
        post.spec_io_running() && post.spec_configured() && r is Err),
        (outcome matches CoreOutcome::Interrupted(_) && !pre.spec_configured()) ==> (
        !post.spec_io_running() && !post.spec_configured() && r is Err),
        outcome is Done ==> post.spec_configured() && post.spec_io_running() && r is Ok,
        post.spec_configured() ==> post.spec_io_running(),
{
}

/// One account's state.
pub struct AccountState {
    configured: bool,
    io_running: bool,
    stop_requested: bool,
    cfg: ConfigStore,
}

impl AccountState {
    /// Whether a configure attempt has ever succeeded for this account.
    pub closed spec fn spec_configured(self) -> bool {
        self.configured
    }

    /// Whether the account's I/O is running.
    pub closed spec fn spec_io_running(self) -> bool {
        self.io_running
    }

    /// Whether the ongoing operation was asked to stop.
    pub closed spec fn spec_stop_requested(self) -> bool {
        self.stop_requested
    }

    /// The account's configuration store.
    pub closed spec fn cfg(self) -> ConfigStore {
        self.cfg
    }

    /// What a just-created account looks like: unconfigured, I/O stopped,
    /// nothing requested, no configuration value set.
    pub open spec fn spec_fresh(self) -> bool {
        &&& !self.spec_configured()
        &&& !self.spec_io_running()
        &&& !self.spec_stop_requested()
        &&& forall|k: ConfigKey| self.cfg().val(k) == None::<Seq<char>>
        &&& forall|key: Seq<char>| self.cfg().ui_val(key) == None::<Seq<char>>
    }

    /// A fresh account: unconfigured, I/O stopped, nothing requested,
    /// no configuration value set.
    pub fn new() -> (r: AccountState)
        ensures
            r.spec_fresh(),
    {
        AccountState {
            configured: false,
            io_running: false,
            stop_requested: false,
            cfg: ConfigStore::new(),
        }
    }

    /// Whether a configure attempt has ever succeeded.
    pub fn is_configured(&self) -> (r: bool)
        ensures
            r == self.spec_configured(),
    {
        self.configured
    }

    /// Whether the account's I/O is running.
    pub fn is_io_running(&self) -> (r: bool)
        ensures
            r == self.spec_io_running(),
    {
        self.io_running
    }

    /// Whether the ongoing operation was asked to stop. The core polls this
    /// between units of work; cancellation is cooperative, never preemptive.
    pub fn is_stop_requested(&self) -> (r: bool)
        ensures
            r == self.spec_stop_requested(),
    {
        self.stop_requested
    }

    /// Asks the ongoing long operation of this account to stop. Takes
    /// effect when the operation next observes the flag.
    pub fn stop_ongoing(&mut self)
        ensures
            stop_ongoing_rel(*old(self), *final(self)),
    {
        self.stop_requested = true;
    }

    /// What a configuration read of `key` must return: the UI-local value
    /// for a key in the reserved `ui.` namespace, the stored value for a
    /// known key, `UnknownConfigKey` for anything else.
    pub open spec fn spec_get_cfg(self, key: Seq<char>) -> Result<Option<Seq<char>>, ErrorKind> {
        if spec_is_ui_key(key) {
            Ok(self.cfg().ui_val(key))
        } else {
            match spec_parse_key(key) {
                Some(k) => Ok(self.cfg().val(k)),
                None => Err(ErrorKind::UnknownConfigKey),
            }
        }
    }

    /// Reads one known configuration name directly.
    pub fn get_known(&self, k: ConfigKey) -> (r: Option<String>)
        ensures
            opt_view(r) == self.cfg().val(k),
    {
        self.cfg.get_known(k)
    }

    /// Reads one configuration key.
    pub fn get_config(&self, key: &str) -> (r: Result<Option<String>, ErrorKind>)
        ensures
            res_view(r) == self.spec_get_cfg(key@),
    {
        if is_ui_key(key) {
            Ok(self.cfg.get_ui(key))
        } else {
            match parse_key(key) {
                Some(k) => Ok(self.cfg.get_known(k)),
                None => Err(ErrorKind::UnknownConfigKey),
            }
        }
    }

    /// Writes one configuration key. `None` clears the key. On success the
    /// result says whether the caller must restart running I/O (the
    /// mailbox-watch keys demand it); the account's flags never move here.
    /// An unknown key outside the `ui.` namespace fails with
    /// `UnknownConfigKey` and changes nothing.
    pub fn set_config(&mut self, key: &str, value: Option<String>) -> (r: Result<bool, ErrorKind>)
        ensures
            set_config_rel(*old(self), *final(self), key@, opt_view(value), r),
    {
        if is_ui_key(key) {
            self.cfg.set_ui(key.to_owned(), value);
            Ok(false)
        } else {
            match parse_key(key) {
                Some(k) => {
                    self.cfg.set_known(k, value);
                    Ok(restarts_io(k))
                },
                None => Err(ErrorKind::UnknownConfigKey),
            }
        }
    }

    /// Writes a batch of configuration keys, in order, aborting on the
    /// first unknown key. On success every pair was applied (the last write
    /// to a key wins) and the result says whether any applied key demands
    /// an I/O restart. On failure the result names the offending key; the
    /// pairs before it stay applied, the pairs after it were never touched.
    pub fn batch_set_config(&mut self, pairs: &Vec<(String, Option<String>)>) -> (r: Result<
        bool,
        BatchKeyFailure,
    >)
        ensures
            batch_set_rel(
                *old(self),
                *final(self),
                pairs@,
                match r {
                    Ok(b) => Ok(b),
                    Err(f) => Err((f.key@, f.kind)),
                },
            ),
    {
        let mut restart = false;
        let mut j: usize = 0;
        proof {
            assert(pairs@.take(0) =~= Seq::<(String, Option<String>)>::empty());
        }
        while j < pairs.len()
            invariant
                j <= pairs.len(),
                self.spec_configured() == old(self).spec_configured(),
                self.spec_io_running() == old(self).spec_io_running(),
                self.spec_stop_requested() == old(self).spec_stop_requested(),
                forall|m: int| 0 <= m < j ==> #[trigger] key_ok(pairs@[m].0@),
                restart == batch_restart(pairs@.take(j as int)),
                forall|k: ConfigKey|
                    self.cfg().val(k) == batch_known_value(
                        pairs@.take(j as int),
                        k,
                        old(self).cfg().val(k),
                    ),
                forall|key: Seq<char>|
                    self.cfg().ui_val(key) == batch_ui_value(
                        pairs@.take(j as int),
                        key,
                        old(self).cfg().ui_val(key),
                    ),
            decreases pairs.len() - j,
        {
            let key_ref = &pairs[j].0;
            let value = match &pairs[j].1 {
                Some(v) => Some(v.clone()),
                None => None,
            };
            proof {
                assert(pairs@.take(j + 1 as int).drop_last() =~= pairs@.take(j as int));
                assert(pairs@.take(j + 1 as int).last() == pairs@[j as int]);
            }
            match self.set_config(key_ref.as_str(), value) {
                Ok(this_restart) => {
                    restart = restart || this_restart;
                },
                Err(kind) => {
                    proof {
                        crate::config::lemma_first_bad_key_at(pairs@, j as int);
                    }
                    return Err(BatchKeyFailure { key: key_ref.clone(), kind });
                },
            }
            j = j + 1;
        }
        proof {
            assert(pairs@.take(j as int) =~= pairs@);
            crate::config::lemma_first_bad_key_none(pairs@);
        }
        Ok(restart)
    }

    /// Reads a batch of configuration keys, collecting a result for each
    /// key independently: a single unknown key yields its own error entry
    /// and never aborts the batch, since the other values stay useful.
    pub fn batch_get_config(&self, keys: &Vec<String>) -> (r: Vec<
        (String, Result<Option<String>, ErrorKind>),
    >)
        ensures
            r@.len() == keys@.len(),
            forall|i: int|
                0 <= i < keys@.len() ==> (#[trigger] r@[i]).0@ == keys@[i]@ && res_view(r@[i].1)
                    == self.spec_get_cfg(keys@[i]@),
    {
        let mut out: Vec<(String, Result<Option<String>, ErrorKind>)> = Vec::new();
        let mut i: usize = 0;
        while i < keys.len()
            invariant
                i <= keys.len(),
                out@.len() == i,
                forall|m: int|
                    0 <= m < i ==> (#[trigger] out@[m]).0@ == keys@[m]@ && res_view(out@[m].1)
                        == self.spec_get_cfg(keys@[m]@),
            decreases keys.len() - i,
        {
            let key = &keys[i];
            out.push((key.clone(), self.get_config(key.as_str())));
            i = i + 1;
        }
        out
    }

    /// Enters the configure protocol: stops I/O unconditionally and rearms
    /// the cancellation flag for the new ongoing operation. The caller then
    /// makes the core attempt and must feed its outcome to
    /// [`AccountState::configure_finish`].
    pub fn configure_begin(&mut self)
        ensures
            configure_begin_rel(*old(self), *final(self)),
    {
        self.io_running = false;
        self.stop_requested = false;
    }

    /// Leaves the configure protocol with the core attempt's outcome.
    ///
    /// On success the account is configured and I/O starts. On failure —
    /// cancellation included — I/O is restarted only if the account was
    /// already configured by an earlier success, so a working account is
    /// not left offline; an account that never configured stays stopped.
    /// The failure is passed through with the core's message and the
    /// fitting category.
    pub fn configure_finish(&mut self, outcome: CoreOutcome) -> (r: Result<(), Failure>)
        requires
            !old(self).spec_io_running(),
        ensures
            configure_finish_rel(*old(self), *final(self), outcome, r),
    {
        match outcome {
            CoreOutcome::Done => {
                self.configured = true;
                self.io_running = true;
                Ok(())
            },
            CoreOutcome::Failed(msg) => {
                if self.configured {
                    self.io_running = true;
                }
                Err(Failure::with_message(ErrorKind::CoreOperationFailed, msg))
            },
            CoreOutcome::Interrupted(msg) => {
                if self.configured {
                    self.io_running = true;
                }
                Err(Failure::with_message(ErrorKind::Cancelled, msg))
            },
        }
    }
}

} // verus!
