use vstd::prelude::*;
use vstd::string::*;
use crate::codec::{deobfuscate, xor_bytes};

verus! {

/// Service name under which the keyring holds the record.
pub const SERVICE_NAME: &'static str = "s3-vault";

/// Key name under which the keyring holds the record.
pub const CREDENTIALS_KEY: &'static str = "aws-credentials";

/// File name of the fallback store inside the per-user directory.
pub const FALLBACK_FILE: &'static str = ".s3-vault-creds";

/// Text that a keyring error carries when the platform secret service is not running.
pub const UNAVAILABLE_MARKER: &'static str = "org.freedesktop.secrets";

/// The one credential record that the vault keeps.
#[derive(Debug)]
pub struct StoredCredentials {
    pub access_key_id: String,
    pub secret_access_key: String,
    pub region: String,
    pub bucket_name: String,
    pub endpoint_url: Option<String>,
}

/// How a keyring operation failed.
#[derive(Clone, Copy, Debug, PartialEq, Eq, Structural)]
pub enum FailureKind {
    /// The keyring holds no entry under the vault's name.
    NotFound,
    /// The platform secret service cannot be reached.
    Unavailable,
    /// Any other failure.
    Other,
}

/// A keyring failure, classified, with the keyring's own message.
#[derive(Debug, PartialEq, Eq)]
pub struct BackendError {
    pub kind: FailureKind,
    pub message: String,
}

/// A failure that the vault reports to its caller.
#[derive(Debug, PartialEq, Eq)]
pub enum VaultError {
    /// The keyring failed in a way that no fallback covers.
    Keyring(String),
    /// The fallback file could not be read or written.
    Io(String),
    /// A record could not be encoded or decoded.
    Serialization(String),
    /// Every failure of a delete, joined.
    Aggregate(String),
}

impl VaultError {
    pub open spec fn message_view(&self) -> Seq<char> {
        match self {
            VaultError::Keyring(m) => m@,
            VaultError::Io(m) => m@,
            VaultError::Serialization(m) => m@,
            VaultError::Aggregate(m) => m@,
        }
    }

    /// The message that the failure carries.
    pub fn into_message(self) -> (r: String)
        ensures
            r@ == self.message_view(),
    {
        match self {
            VaultError::Keyring(m) => m,
            VaultError::Io(m) => m,
            VaultError::Serialization(m) => m,
            VaultError::Aggregate(m) => m,
        }
    }
}

/// `pat` occurs in `s` starting at position `i`.
pub open spec fn occurs_at(s: Seq<char>, pat: Seq<char>, i: int) -> bool {
    0 <= i && i + pat.len() <= s.len() && s.subrange(i, i + pat.len()) == pat
}

/// `pat` occurs somewhere in `s`.
pub open spec fn occurs_in(s: Seq<char>, pat: Seq<char>) -> bool {
    exists|i: int| occurs_at(s, pat, i)
}

/// Whether `pat` occurs in `s`.
pub fn text_contains(s: &str, pat: &str) -> (r: bool)
    ensures
        r == occurs_in(s@, pat@),
{
    let n = s.unicode_len();
    let m = pat.unicode_len();
    if m > n {
        assert forall|j: int| !occurs_at(s@, pat@, j) by {}
        return false;
    }
    let mut i: usize = 0;
    while i <= n - m
        invariant
            m <= n,
            n == s@.len(),
            m == pat@.len(),
            forall|j: int| 0 <= j < i ==> !occurs_at(s@, pat@, j),
        decreases n - m + 1 - i,
    {
        let mut k: usize = 0;
        let mut same = true;
        while k < m
            invariant
                i + m <= n,
                n == s@.len(),
                m == pat@.len(),
                k <= m,
                same <==> forall|t: int| 0 <= t < k ==> s@[i + t] == pat@[t],
            decreases m - k,
        {
            if s.get_char(i + k) != pat.get_char(k) {
                same = false;
            }
            k = k + 1;
        }
        if same {
            assert(s@.subrange(i as int, i + m) =~= pat@);
            assert(occurs_at(s@, pat@, i as int));
            return true;
        }
        proof {
            let t = choose|t: int| 0 <= t < m && s@[i + t] != pat@[t];
            assert(s@.subrange(i as int, i + m)[t] != pat@[t]);
        }
        i = i + 1;
    }
    false
}

/// The kind of a keyring failure: `NotFound` for a missing entry, `Unavailable` where the
/// message names the platform secret service, `Other` for the rest.
pub open spec fn failure_kind(no_entry: bool, message: Seq<char>) -> FailureKind {
    if no_entry {
        FailureKind::NotFound
    } else if occurs_in(message, UNAVAILABLE_MARKER@) {
        FailureKind::Unavailable
    } else {
        FailureKind::Other
    }
}

/// Classifies a keyring failure from whether it was the missing-entry error and its message.
pub fn classify_keyring_error(no_entry: bool, message: String) -> (r: BackendError)
    ensures
        r.kind == failure_kind(no_entry, message@),
        r.message == message,
{
    let kind = if no_entry {
        FailureKind::NotFound
    } else if text_contains(message.as_str(), UNAVAILABLE_MARKER) {
        FailureKind::Unavailable
    } else {
        FailureKind::Other
    };
    BackendError { kind, message }
}

/// What a save does once the keyring has answered the write.
#[derive(Debug, PartialEq, Eq)]
pub enum SaveStep {
    /// The keyring took the record: remove any fallback file, and succeed.
    RemoveFallback,
    /// The keyring is out of reach: write the obfuscated record to the fallback file.
    WriteFallback,
    /// The save fails with this error.
    Fail(VaultError),
}

/// The save step for the keyring's answer; `None` stands for a keyring that could not be
/// addressed at all.
pub open spec fn save_step(primary: Option<Result<(), BackendError>>) -> SaveStep {
    match primary {
        None => SaveStep::WriteFallback,
        Some(Ok(())) => SaveStep::RemoveFallback,
        Some(Err(e)) => if e.kind == FailureKind::Unavailable {
            SaveStep::WriteFallback
        } else {
            SaveStep::Fail(VaultError::Keyring(e.message))
        },
    }
}

/// Decides how a save goes on after the keyring write.
pub fn plan_save(primary: Option<Result<(), BackendError>>) -> (r: SaveStep)
    ensures
        r == save_step(primary),
{
    match primary {
        None => SaveStep::WriteFallback,
        Some(Ok(())) => SaveStep::RemoveFallback,
        Some(Err(e)) => if e.kind == FailureKind::Unavailable {
            SaveStep::WriteFallback
        } else {
            SaveStep::Fail(VaultError::Keyring(e.message))
        },
    }
}

/// What a load does once the keyring has answered the read.
#[derive(Debug, PartialEq, Eq)]
pub enum LoadStep {
    /// The keyring holds this encoded record.
    Decode(Vec<u8>),
    /// Read the fallback file instead.
    ReadFallback,
    /// The load fails with this error.
    Fail(VaultError),
}

/// The load step for the keyring's answer; `None` stands for a keyring that could not be
/// addressed at all.
pub open spec fn load_step(primary: Option<Result<Vec<u8>, BackendError>>) -> LoadStep {
    match primary {
        None => LoadStep::ReadFallback,
        Some(Ok(text)) => LoadStep::Decode(text),
        Some(Err(e)) => if e.kind == FailureKind::Other {
            LoadStep::Fail(VaultError::Keyring(e.message))
        } else {
            LoadStep::ReadFallback
        },
    }
}

/// Decides how a load goes on after the keyring read.
pub fn plan_load(primary: Option<Result<Vec<u8>, BackendError>>) -> (r: LoadStep)
    ensures
        r == load_step(primary),
{
    match primary {
        None => LoadStep::ReadFallback,
        Some(Ok(text)) => LoadStep::Decode(text),
        Some(Err(e)) => if e.kind == FailureKind::Other {
            LoadStep::Fail(VaultError::Keyring(e.message))
        } else {
            LoadStep::ReadFallback
        },
    }
}

/// The encoded record that a read of the fallback file yields: `Ok(None)` where there is
/// no file, the bytes with the obfuscation undone where there is one.
pub open spec fn fallback_record(read: Result<Option<Vec<u8>>, String>) -> Result<Option<Seq<u8>>, VaultError> {
    match read {
        Err(m) => Err(VaultError::Io(m)),
        Ok(None) => Ok(None),
        Ok(Some(bytes)) => Ok(Some(xor_bytes(bytes@))),
    }
}

/// A loaded record seen through the view of its bytes.
pub open spec fn record_view(r: Result<Option<Vec<u8>>, VaultError>) -> Result<Option<Seq<u8>>, VaultError> {
    match r {
        Err(e) => Err(e),
        Ok(None) => Ok(None),
        Ok(Some(bytes)) => Ok(Some(bytes@)),
    }
}

/// Turns what was read of the fallback file (`Ok(None)` when it does not exist) into the
/// encoded record it holds.
pub fn open_fallback(read: Result<Option<Vec<u8>>, String>) -> (r: Result<Option<Vec<u8>>, VaultError>)
    ensures
        record_view(r) == fallback_record(read),
{
    match read {
        Err(m) => Err(VaultError::Io(m)),
        Ok(None) => Ok(None),
        Ok(Some(bytes)) => Ok(Some(deobfuscate(bytes.as_slice()))),
    }
}

/// The encoded record that a load returns, given its step and what the fallback file gave.
pub open spec fn load_result(step: LoadStep, fallback: Result<Option<Vec<u8>>, String>) -> Result<Option<Seq<u8>>, VaultError> {
    match step {
        LoadStep::Decode(text) => Ok(Some(text@)),
        LoadStep::ReadFallback => fallback_record(fallback),
        LoadStep::Fail(e) => Err(e),
    }
}

/// The messages of a delete's failures that reach the caller: a keyring failure other than a
/// missing entry or an unreachable service, then a failure to remove the fallback file.
pub open spec fn delete_failures(primary: Option<Result<(), BackendError>>, fallback: Result<(), String>) -> Seq<Seq<char>> {
    let first: Seq<Seq<char>> = match primary {
        Some(Err(e)) => if e.kind == FailureKind::Other {
            seq![e.message@]
        } else {
            Seq::empty()
        },
        _ => Seq::empty(),
    };
    match fallback {
        Err(m) => first.push(m@),
        Ok(()) => first,
    }
}

/// The separator between joined failure messages.
pub open spec fn separator() -> Seq<char> {
    seq![',', ' ']
}

/// Messages joined in order with the separator between each two.
pub open spec fn join_messages(msgs: Seq<Seq<char>>) -> Seq<char>
    decreases msgs.len(),
{
    if msgs.len() == 0 {
        Seq::empty()
    } else if msgs.len() == 1 {
        msgs[0]
    } else {
        join_messages(msgs.drop_last()) + separator() + msgs.last()
    }
}

/// Combines the two attempts of a delete: success when no failure reaches the caller,
/// otherwise one failure that carries every message.
pub fn combine_delete(primary: Option<Result<(), BackendError>>, fallback: Result<(), String>) -> (r: Result<(), VaultError>)
    ensures
        r is Ok <==> delete_failures(primary, fallback).len() == 0,
        r is Err ==> r->Err_0 is Aggregate && r->Err_0.message_view() == join_messages(delete_failures(primary, fallback)),
{
    let ghost msgs = delete_failures(primary, fallback);
    let primary_msg: Option<String> = match primary {
        Some(Err(e)) => if e.kind == FailureKind::Other {
            Some(e.message)
        } else {
            None
        },
        _ => None,
    };
    match (primary_msg, fallback) {
        (None, Ok(())) => Ok(()),
        (Some(a), Ok(())) => {
            assert(msgs =~= seq![a@]);
            Err(VaultError::Aggregate(a))
        },
        (None, Err(b)) => {
            assert(msgs =~= seq![b@]);
            Err(VaultError::Aggregate(b))
        },
        (Some(a), Err(b)) => {
            let mut joined = a;
            joined.append(", ");
            joined.append(b.as_str());
            proof {
                reveal_strlit(", ");
                assert(msgs =~= seq![a@, b@]);
                assert(msgs.drop_last() =~= seq![a@]);
                assert(join_messages(msgs.drop_last()) == a@);
                assert(", "@ =~= separator());
                assert(joined@ == join_messages(msgs));
            }
            Err(VaultError::Aggregate(joined))
        },
    }
}

/// What the keyring holds, as far as the vault can tell.
pub enum KeyringModel {
    /// No keyring can be addressed on this platform.
    Missing,
    /// The platform secret service is not running.
    Unavailable,
    /// The keyring answers, and holds this encoded record, or none.
    Holding(Option<Seq<u8>>),
}

/// `write` is what a keyring in state `k` answers to a write.
pub open spec fn write_answers(k: KeyringModel, write: Option<Result<(), BackendError>>) -> bool {
    match k {
        KeyringModel::Missing => write is None,
        KeyringModel::Unavailable => write is Some && write->0 is Err && write->0->Err_0.kind == FailureKind::Unavailable,
        KeyringModel::Holding(_) => write == Some(Ok::<(), BackendError>(())),
    }
}

/// `read` is what a keyring in state `k` answers to a read.
pub open spec fn read_answers(k: KeyringModel, read: Option<Result<Vec<u8>, BackendError>>) -> bool {
    match k {
        KeyringModel::Missing => read is None,
        KeyringModel::Unavailable => read is Some && read->0 is Err && read->0->Err_0.kind == FailureKind::Unavailable,
        KeyringModel::Holding(None) => read is Some && read->0 is Err && read->0->Err_0.kind == FailureKind::NotFound,
        KeyringModel::Holding(Some(t)) => read is Some && read->0 is Ok && read->0->Ok_0@ == t,
    }
}

/// `del` is what a keyring in state `k` answers to a delete.
pub open spec fn delete_answers(k: KeyringModel, del: Option<Result<(), BackendError>>) -> bool {
    match k {
        KeyringModel::Missing => del is None,
        KeyringModel::Unavailable => del is Some && del->0 is Err && del->0->Err_0.kind == FailureKind::Unavailable,
        KeyringModel::Holding(None) => del is Some && del->0 is Err && del->0->Err_0.kind == FailureKind::NotFound,
        KeyringModel::Holding(Some(_)) => del == Some(Ok::<(), BackendError>(())),
    }
}

/// `read` is what reading a fallback file with contents `file` (`None`: no file) gives.
pub open spec fn file_answers(file: Option<Seq<u8>>, read: Result<Option<Vec<u8>>, String>) -> bool {
    match file {
        None => read == Ok::<Option<Vec<u8>>, String>(None),
        Some(b) => read is Ok && read->Ok_0 is Some && read->Ok_0->0@ == b,
    }
}

/// The keyring after a save of `record` has carried out `step`.
pub open spec fn keyring_after_save(k: KeyringModel, record: Seq<u8>, step: SaveStep) -> KeyringModel {
    match step {
        SaveStep::RemoveFallback => KeyringModel::Holding(Some(record)),
        _ => k,
    }
}

/// The fallback file after a save of `record` has carried out `step`.
pub open spec fn file_after_save(file: Option<Seq<u8>>, record: Seq<u8>, step: SaveStep) -> Option<Seq<u8>> {
    match step {
        SaveStep::RemoveFallback => None,
        SaveStep::WriteFallback => Some(xor_bytes(record)),
        SaveStep::Fail(_) => file,
    }
}

/// Saving a record and then loading gives the record back, whichever store took it, when
/// both stores answer as their contents say.
pub proof fn lemma_save_then_load(
    k: KeyringModel,
    file: Option<Seq<u8>>,
    record: Seq<u8>,
    write: Option<Result<(), BackendError>>,
    read: Option<Result<Vec<u8>, BackendError>>,
    file_read: Result<Option<Vec<u8>>, String>,
)
    requires
        write_answers(k, write),
        read_answers(keyring_after_save(k, record, save_step(write)), read),
        file_answers(file_after_save(file, record, save_step(write)), file_read),
    ensures
        !(save_step(write) is Fail),
        load_result(load_step(read), file_read) == Ok::<Option<Seq<u8>>, VaultError>(Some(record)),
{
    crate::codec::lemma_obfuscation_involution(record);
}

/// When both stores hold a record and the keyring takes a new one, the fallback file is
/// removed and a load returns the new record.
pub proof fn lemma_primary_wins(
    old_record: Seq<u8>,
    old_file: Seq<u8>,
    record: Seq<u8>,
    write: Option<Result<(), BackendError>>,
    read: Option<Result<Vec<u8>, BackendError>>,
    file_read: Result<Option<Vec<u8>>, String>,
)
    requires
        write == Some(Ok::<(), BackendError>(())),
        read_answers(keyring_after_save(KeyringModel::Holding(Some(old_record)), record, save_step(write)), read),
        file_answers(file_after_save(Some(old_file), record, save_step(write)), file_read),
    ensures
        save_step(write) == SaveStep::RemoveFallback,
        file_after_save(Some(old_file), record, save_step(write)) is None,
        load_result(load_step(read), file_read) == Ok::<Option<Seq<u8>>, VaultError>(Some(record)),
{
}

/// Where the keyring is out of reach, a save writes the fallback file without failing, and a
/// load returns the record from that file.
pub proof fn lemma_fallback(
    k: KeyringModel,
    file: Option<Seq<u8>>,
    record: Seq<u8>,
    write: Option<Result<(), BackendError>>,
    read: Option<Result<Vec<u8>, BackendError>>,
    file_read: Result<Option<Vec<u8>>, String>,
)
    requires
        k is Missing || k is Unavailable,
        write_answers(k, write),
        read_answers(k, read),
        file_answers(file_after_save(file, record, save_step(write)), file_read),
    ensures
        save_step(write) == SaveStep::WriteFallback,
        load_step(read) == LoadStep::ReadFallback,
        load_result(load_step(read), file_read) == Ok::<Option<Seq<u8>>, VaultError>(Some(record)),
{
    crate::codec::lemma_obfuscation_involution(record);
}

/// Deleting when neither store holds a record succeeds.
pub proof fn lemma_delete_when_empty(k: KeyringModel, del: Option<Result<(), BackendError>>)
    requires
        k is Missing || k is Unavailable || k == KeyringModel::Holding(None),
        delete_answers(k, del),
    ensures
        delete_failures(del, Ok(())).len() == 0,
{
}

/// When both stores fail to delete, and neither failure is a missing entry or an
/// unreachable keyring, the reported message holds both messages.
pub proof fn lemma_delete_reports_both(e: BackendError, file_error: String)
    requires
        e.kind == FailureKind::Other,
    ensures
        delete_failures(Some(Err(e)), Err(file_error)).len() == 2,
        occurs_in(join_messages(delete_failures(Some(Err(e)), Err(file_error))), e.message@),
        occurs_in(join_messages(delete_failures(Some(Err(e)), Err(file_error))), file_error@),
{
    let msgs = delete_failures(Some(Err(e)), Err(file_error));
    assert(msgs =~= seq![e.message@, file_error@]);
    assert(msgs.drop_last() =~= seq![e.message@]);
    assert(join_messages(msgs.drop_last()) == e.message@);
    let joined = join_messages(msgs);
    assert(joined == e.message@ + separator() + file_error@);
    assert(joined.subrange(0, e.message@.len() as int) =~= e.message@);
    assert(occurs_at(joined, e.message@, 0));
    let at: int = e.message@.len() as int + 2;
    assert(joined.subrange(at, at + file_error@.len()) =~= file_error@);
    assert(occurs_at(joined, file_error@, at));
}

} // verus!
