//! Configuration keys and the per-account key/value store.
//!
//! String keys fall in two namespaces. A key beginning with `ui.` is an
//! opaque UI-local setting: it is stored and returned without validation.
//! Every other key must name one of the fixed, enumerated configuration
//! names below; an unknown key fails with
//! [`ErrorKind::UnknownConfigKey`](crate::errors::ErrorKind). Changing one of
//! the mailbox-watch keys asks the caller to restart running I/O.

use vstd::prelude::*;

verus! {

/// Equality of two string slices, decided by value.
pub fn str_eq(a: &str, b: &str) -> (r: bool)
    ensures
        r == (a@ == b@),
{
    let sa: String = a.to_owned();
    let sb: String = b.to_owned();
    sa == sb
}

/// The fixed set of known configuration names.
#[derive(Clone, Copy, Debug, PartialEq, Eq, Structural)]
pub enum ConfigKey {
    Addr,
    MailServer,
    MailUser,
    MailPw,
    MailPort,
    SendServer,
    SendUser,
    SendPw,
    SendPort,
    Displayname,
    Selfstatus,
    Selfavatar,
    BccSelf,
    E2eeEnabled,
    MdnsEnabled,
    SentboxWatch,
    MvboxMove,
    OnlyFetchMvbox,
    Socks5Enabled,
}

/// Which known name, if any, a key string denotes.
pub open spec fn spec_parse_key(s: Seq<char>) -> Option<ConfigKey> {
    if s == "addr"@ {
        Some(ConfigKey::Addr)
    } else if s == "mail_server"@ {
        Some(ConfigKey::MailServer)
    } else if s == "mail_user"@ {
        Some(ConfigKey::MailUser)
    } else if s == "mail_pw"@ {
        Some(ConfigKey::MailPw)
    } else if s == "mail_port"@ {
        Some(ConfigKey::MailPort)
    } else if s == "send_server"@ {
        Some(ConfigKey::SendServer)
    } else if s == "send_user"@ {
        Some(ConfigKey::SendUser)
    } else if s == "send_pw"@ {
        Some(ConfigKey::SendPw)
    } else if s == "send_port"@ {
        Some(ConfigKey::SendPort)
    } else if s == "displayname"@ {
        Some(ConfigKey::Displayname)
    } else if s == "selfstatus"@ {
        Some(ConfigKey::Selfstatus)
    } else if s == "selfavatar"@ {
        Some(ConfigKey::Selfavatar)
    } else if s == "bcc_self"@ {
        Some(ConfigKey::BccSelf)
    } else if s == "e2ee_enabled"@ {
        Some(ConfigKey::E2eeEnabled)
    } else if s == "mdns_enabled"@ {
        Some(ConfigKey::MdnsEnabled)
    } else if s == "sentbox_watch"@ {
        Some(ConfigKey::SentboxWatch)
    } else if s == "mvbox_move"@ {
        Some(ConfigKey::MvboxMove)
    } else if s == "only_fetch_mvbox"@ {
        Some(ConfigKey::OnlyFetchMvbox)
    } else if s == "socks5_enabled"@ {
        Some(ConfigKey::Socks5Enabled)
    } else {
        None
    }
}

/// Parses a key string against the fixed set of known names.
pub fn parse_key(key: &str) -> (r: Option<ConfigKey>)
    ensures
        r == spec_parse_key(key@),
{
    if str_eq(key, "addr") {
        Some(ConfigKey::Addr)
    } else if str_eq(key, "mail_server") {
        Some(ConfigKey::MailServer)
    } else if str_eq(key, "mail_user") {
        Some(ConfigKey::MailUser)
    } else if str_eq(key, "mail_pw") {
        Some(ConfigKey::MailPw)
    } else if str_eq(key, "mail_port") {
        Some(ConfigKey::MailPort)
    } else if str_eq(key, "send_server") {
        Some(ConfigKey::SendServer)
    } else if str_eq(key, "send_user") {
        Some(ConfigKey::SendUser)
    } else if str_eq(key, "send_pw") {
        Some(ConfigKey::SendPw)
    } else if str_eq(key, "send_port") {
        Some(ConfigKey::SendPort)
    } else if str_eq(key, "displayname") {
        Some(ConfigKey::Displayname)
    } else if str_eq(key, "selfstatus") {
        Some(ConfigKey::Selfstatus)
    } else if str_eq(key, "selfavatar") {
        Some(ConfigKey::Selfavatar)
    } else if str_eq(key, "bcc_self") {
        Some(ConfigKey::BccSelf)
    } else if str_eq(key, "e2ee_enabled") {
        Some(ConfigKey::E2eeEnabled)
    } else if str_eq(key, "mdns_enabled") {
        Some(ConfigKey::MdnsEnabled)
    } else if str_eq(key, "sentbox_watch") {
        Some(ConfigKey::SentboxWatch)
    } else if str_eq(key, "mvbox_move") {
        Some(ConfigKey::MvboxMove)
    } else if str_eq(key, "only_fetch_mvbox") {
        Some(ConfigKey::OnlyFetchMvbox)
    } else if str_eq(key, "socks5_enabled") {
        Some(ConfigKey::Socks5Enabled)
    } else {
        None
    }
}

/// Whether changing this key must restart I/O if it is running: the
/// mailbox-watch keys redirect what the core watches, so a running
/// connection has to be cycled for the change to take effect.
pub open spec fn spec_restarts_io(k: ConfigKey) -> bool {
    k == ConfigKey::SentboxWatch || k == ConfigKey::MvboxMove || k == ConfigKey::OnlyFetchMvbox
}

/// Exec mirror of [`spec_restarts_io`].
pub fn restarts_io(k: ConfigKey) -> (r: bool)
    ensures
        r == spec_restarts_io(k),
{
    match k {
        ConfigKey::SentboxWatch => true,
        ConfigKey::MvboxMove => true,
        ConfigKey::OnlyFetchMvbox => true,
        _ => false,
    }
}

/// Whether a key string lies in the reserved UI-local namespace.
pub open spec fn spec_is_ui_key(s: Seq<char>) -> bool {
    s.len() >= 3 && s.subrange(0, 3) == "ui."@
}

/// Exec mirror of [`spec_is_ui_key`].
pub fn is_ui_key(key: &str) -> (r: bool)
    ensures
        r == spec_is_ui_key(key@),
{
    let n = key.unicode_len();
    if n < 3 {
        return false;
    }
    let head = key.substring_char(0, 3);
    str_eq(head, "ui.")
}

/// The view of a stored or supplied value: `None` clears the key.
pub open spec fn opt_view(v: Option<String>) -> Option<Seq<char>> {
    match v {
        Some(s) => Some(s@),
        None => None,
    }
}

/// The current value of a known key under a journal of writes: the last
/// write wins, and a key never written (or last cleared) has no value.
pub open spec fn known_value(
    entries: Seq<(ConfigKey, Option<String>)>,
    k: ConfigKey,
) -> Option<Seq<char>>
    decreases entries.len(),
{
    if entries.len() == 0 {
        None
    } else if entries.last().0 == k {
        opt_view(entries.last().1)
    } else {
        known_value(entries.drop_last(), k)
    }
}

/// The current value of a UI-local key under a journal of writes.
pub open spec fn ui_value(
    entries: Seq<(String, Option<String>)>,
    key: Seq<char>,
) -> Option<Seq<char>>
    decreases entries.len(),
{
    if entries.len() == 0 {
        None
    } else if entries.last().0@ == key {
        opt_view(entries.last().1)
    } else {
        ui_value(entries.drop_last(), key)
    }
}

/// Whether a key string is acceptable to a configuration write: UI-local,
/// or one of the known names.
pub open spec fn key_ok(key: Seq<char>) -> bool {
    spec_is_ui_key(key) || spec_parse_key(key) is Some
}

/// The value a known key holds after a batch of writes applied in order on
/// top of `dflt`: the last pair naming the key wins.
pub open spec fn batch_known_value(
    pairs: Seq<(String, Option<String>)>,
    k: ConfigKey,
    dflt: Option<Seq<char>>,
) -> Option<Seq<char>>
    decreases pairs.len(),
{
    if pairs.len() == 0 {
        dflt
    } else if !spec_is_ui_key(pairs.last().0@) && spec_parse_key(pairs.last().0@) == Some(k) {
        opt_view(pairs.last().1)
    } else {
        batch_known_value(pairs.drop_last(), k, dflt)
    }
}

/// The value a UI-local key holds after a batch of writes applied in order
/// on top of `dflt`.
pub open spec fn batch_ui_value(
    pairs: Seq<(String, Option<String>)>,
    key: Seq<char>,
    dflt: Option<Seq<char>>,
) -> Option<Seq<char>>
    decreases pairs.len(),
{
    if pairs.len() == 0 {
        dflt
    } else if spec_is_ui_key(pairs.last().0@) && pairs.last().0@ == key {
        opt_view(pairs.last().1)
    } else {
        batch_ui_value(pairs.drop_last(), key, dflt)
    }
}

/// Whether any write of the batch names a key that demands an I/O restart.
pub open spec fn batch_restart(pairs: Seq<(String, Option<String>)>) -> bool
    decreases pairs.len(),
{
    if pairs.len() == 0 {
        false
    } else {
        (!spec_is_ui_key(pairs.last().0@) && (spec_parse_key(pairs.last().0@) matches Some(k)
            && spec_restarts_io(k))) || batch_restart(pairs.drop_last())
    }
}

/// The position of the first pair whose key no write accepts, if any.
pub open spec fn first_bad_key(pairs: Seq<(String, Option<String>)>) -> Option<int>
    decreases pairs.len(),
{
    if pairs.len() == 0 {
        None
    } else if !key_ok(pairs[0].0@) {
        Some(0)
    } else {
        match first_bad_key(pairs.drop_first()) {
            Some(i) => Some(i + 1),
            None => None,
        }
    }
}

/// A batch whose keys are good up to `j` and bad at `j` has its first bad
/// key exactly at `j`.
pub proof fn lemma_first_bad_key_at(pairs: Seq<(String, Option<String>)>, j: int)
    requires
        0 <= j < pairs.len(),
        forall|m: int| 0 <= m < j ==> #[trigger] key_ok(pairs[m].0@),
        !key_ok(pairs[j].0@),
    ensures
        first_bad_key(pairs) == Some(j),
    decreases j,
{
    if j == 0 {
    } else {
        assert(key_ok(pairs[0].0@));
        let rest = pairs.drop_first();
        assert forall|m: int| 0 <= m < j - 1 implies #[trigger] key_ok(rest[m].0@) by {
            assert(rest[m] == pairs[m + 1]);
            assert(key_ok(pairs[m + 1].0@));
        }
        assert(rest[j - 1] == pairs[j]);
        lemma_first_bad_key_at(rest, j - 1);
    }
}

/// A batch whose keys are all good has no first bad key.
pub proof fn lemma_first_bad_key_none(pairs: Seq<(String, Option<String>)>)
    requires
        forall|m: int| 0 <= m < pairs.len() ==> #[trigger] key_ok(pairs[m].0@),
    ensures
        first_bad_key(pairs) is None,
    decreases pairs.len(),
{
    if pairs.len() > 0 {
        assert(key_ok(pairs[0].0@));
        let rest = pairs.drop_first();
        assert forall|m: int| 0 <= m < rest.len() implies #[trigger] key_ok(rest[m].0@) by {
            assert(rest[m] == pairs[m + 1]);
            assert(key_ok(pairs[m + 1].0@));
        }
        lemma_first_bad_key_none(rest);
    }
}

/// The key/value store of one account: a journal of writes, read back by
/// "last write wins". Clearing a key is a write of no value.
pub struct ConfigStore {
    known: Vec<(ConfigKey, Option<String>)>,
    ui: Vec<(String, Option<String>)>,
}

impl ConfigStore {
    /// The current value of a known key.
    pub closed spec fn val(self, k: ConfigKey) -> Option<Seq<char>> {
        known_value(self.known@, k)
    }

    /// The current value of a UI-local key.
    pub closed spec fn ui_val(self, key: Seq<char>) -> Option<Seq<char>> {
        ui_value(self.ui@, key)
    }

    /// An empty store: no key has a value.
    pub fn new() -> (r: ConfigStore)
        ensures
            forall|k: ConfigKey| r.val(k) == None::<Seq<char>>,
            forall|key: Seq<char>| r.ui_val(key) == None::<Seq<char>>,
    {
        ConfigStore { known: Vec::new(), ui: Vec::new() }
    }

    /// Writes a known key: afterwards it reads back as exactly `v`, and no
    /// other key moved.
    pub fn set_known(&mut self, k: ConfigKey, v: Option<String>)
        ensures
            final(self).val(k) == opt_view(v),
            forall|k2: ConfigKey| k2 != k ==> final(self).val(k2) == old(self).val(k2),
            forall|key: Seq<char>| final(self).ui_val(key) == old(self).ui_val(key),
    {
        self.known.push((k, v));
        proof {
            assert(self.known@.drop_last() =~= old(self).known@);
        }
    }

    /// Writes a UI-local key: afterwards it reads back as exactly `v`, and
    /// no other key moved.
    pub fn set_ui(&mut self, key: String, v: Option<String>)
        ensures
            final(self).ui_val(key@) == opt_view(v),
            forall|key2: Seq<char>| key2 != key@ ==> final(self).ui_val(key2) == old(self).ui_val(
                key2,
            ),
            forall|k2: ConfigKey| final(self).val(k2) == old(self).val(k2),
    {
        self.ui.push((key, v));
        proof {
            assert(self.ui@.drop_last() =~= old(self).ui@);
        }
    }

    /// Reads a known key back.
    pub fn get_known(&self, k: ConfigKey) -> (r: Option<String>)
        ensures
            opt_view(r) == self.val(k),
    {
        let mut i: usize = self.known.len();
        proof {
            assert(self.known@.take(i as int) =~= self.known@);
        }
        while i > 0
            invariant
                i <= self.known.len(),
                known_value(self.known@, k) == known_value(self.known@.take(i as int), k),
            decreases i,
        {
            i = i - 1;
            let entry = &self.known[i];
            proof {
                assert(self.known@.take(i + 1 as int).drop_last() =~= self.known@.take(i as int));
                assert(self.known@.take(i + 1 as int).last() == self.known@[i as int]);
            }
            if entry.0 == k {
                return match &entry.1 {
                    Some(v) => Some(v.clone()),
                    None => None,
                };
            }
        }
        proof {
            assert(self.known@.take(0) =~= Seq::<(ConfigKey, Option<String>)>::empty());
        }
        None
    }

    /// Reads a UI-local key back.
    pub fn get_ui(&self, key: &str) -> (r: Option<String>)
        ensures
            opt_view(r) == self.ui_val(key@),
    {
        let mut i: usize = self.ui.len();
        proof {
            assert(self.ui@.take(i as int) =~= self.ui@);
        }
        while i > 0
            invariant
                i <= self.ui.len(),
                ui_value(self.ui@, key@) == ui_value(self.ui@.take(i as int), key@),
            decreases i,
        {
            i = i - 1;
            let entry = &self.ui[i];
            proof {
                assert(self.ui@.take(i + 1 as int).drop_last() =~= self.ui@.take(i as int));
                assert(self.ui@.take(i + 1 as int).last() == self.ui@[i as int]);
            }
            if str_eq(entry.0.as_str(), key) {
                return match &entry.1 {
                    Some(v) => Some(v.clone()),
                    None => None,
                };
            }
        }
        proof {
            assert(self.ui@.take(0) =~= Seq::<(String, Option<String>)>::empty());
        }
        None
    }
}

} // verus!
