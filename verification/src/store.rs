//! The encrypted file in which the state survives a restart: its format, its key, its errors.

use vstd::prelude::*;
use vstd::slice::slice_subrange;
use vstd::string::*;

use crate::outside::{
    base64_decode, gcm_open, gcm_seal, random_bytes, GCM_MAX_MESSAGE, GCM_TAG_BYTES,
};
use crate::text::{join2, join3, trim};
use crate::{encoding, errors, outside, text};

verus! {

// ---------------------------------------------------------------------------
// Errors
// ---------------------------------------------------------------------------
/// Why the state could not be read or written.
#[derive(Debug, PartialEq, Eq)]
pub enum StateStoreError {
    /// The key is not 32 bytes in base64.
    InvalidKey,
    /// The file could not be read.
    Read {
        /// The file.
        path: String,
        /// What went wrong.
        source: String,
    },
    /// The file does not have the format of a state file.
    InvalidFormat {
        /// The file.
        path: String,
    },
    /// The file does not fit the key.
    Decrypt {
        /// The file.
        path: String,
    },
    /// The decrypted state could not be parsed.
    Parse {
        /// The file.
        path: String,
        /// What went wrong.
        source: String,
    },
    /// The state could not be serialized.
    Serialize(String),
    /// The state could not be encrypted.
    Encrypt,
    /// The file could not be written.
    Write {
        /// The file.
        path: String,
        /// What went wrong.
        source: String,
    },
    /// The permissions of the file are too wide.
    Permissions(String),
}

/// The view of a [`StateStoreError`].
pub enum StateStoreErrorView {
    /// The key is not 32 bytes in base64.
    InvalidKey,
    /// The file could not be read.
    Read(Seq<char>, Seq<char>),
    /// The file does not have the format of a state file.
    InvalidFormat(Seq<char>),
    /// The file does not fit the key.
    Decrypt(Seq<char>),
    /// The decrypted state could not be parsed.
    Parse(Seq<char>, Seq<char>),
    /// The state could not be serialized.
    Serialize(Seq<char>),
    /// The state could not be encrypted.
    Encrypt,
    /// The file could not be written.
    Write(Seq<char>, Seq<char>),
    /// The permissions of the file are too wide.
    Permissions(Seq<char>),
}

impl View for StateStoreError {
    type V = StateStoreErrorView;

    open spec fn view(&self) -> StateStoreErrorView {
        match self {
            StateStoreError::InvalidKey => StateStoreErrorView::InvalidKey,
            StateStoreError::Read { path, source } => StateStoreErrorView::Read(path@, source@),
            StateStoreError::InvalidFormat { path } => StateStoreErrorView::InvalidFormat(path@),
            StateStoreError::Decrypt { path } => StateStoreErrorView::Decrypt(path@),
            StateStoreError::Parse { path, source } => StateStoreErrorView::Parse(path@, source@),
            StateStoreError::Serialize(source) => StateStoreErrorView::Serialize(source@),
            StateStoreError::Encrypt => StateStoreErrorView::Encrypt,
            StateStoreError::Write { path, source } => StateStoreErrorView::Write(path@, source@),
            StateStoreError::Permissions(source) => StateStoreErrorView::Permissions(source@),
        }
    }
}

/// The text that an error is reported with.
pub open spec fn store_error_text(e: StateStoreErrorView) -> Seq<char> {
    match e {
        StateStoreErrorView::InvalidKey =>
            "state encryption key must be standard base64 encoding of exactly 32 bytes"@,
        StateStoreErrorView::Read(path, source) => "failed to read encrypted OAuth state "@ + path
            + ": "@ + source,
        StateStoreErrorView::InvalidFormat(path) => "encrypted OAuth state "@ + path
            + " has an invalid format"@,
        StateStoreErrorView::Decrypt(path) => "failed to decrypt encrypted OAuth state "@ + path
            + "; verify the configured key"@,
        StateStoreErrorView::Parse(path, source) => "failed to parse encrypted OAuth state "@ + path
            + ": "@ + source,
        StateStoreErrorView::Serialize(source) => "failed to serialize OAuth state: "@ + source,
        StateStoreErrorView::Encrypt => "failed to encrypt OAuth state"@,
        StateStoreErrorView::Write(path, source) => "failed to write encrypted OAuth state "@ + path
            + ": "@ + source,
        StateStoreErrorView::Permissions(source) =>
            "encrypted OAuth state file permission check failed: "@ + source,
    }
}

impl StateStoreError {
    /// The text that the error is reported with.
    pub fn message(&self) -> (r: String)
        ensures
            r@ == store_error_text(self@),
    {
        match self {
            StateStoreError::InvalidKey =>
                "state encryption key must be standard base64 encoding of exactly 32 bytes".to_owned(),
            StateStoreError::Read { path, source } => {
                let head: String = join3("failed to read encrypted OAuth state ", path.as_str(), ": ");
                join2(head.as_str(), source.as_str())
            },
            StateStoreError::InvalidFormat { path } => join3(
                "encrypted OAuth state ",
                path.as_str(),
                " has an invalid format",
            ),
            StateStoreError::Decrypt { path } => join3(
                "failed to decrypt encrypted OAuth state ",
                path.as_str(),
                "; verify the configured key",
            ),
            StateStoreError::Parse { path, source } => {
                let head: String = join3("failed to parse encrypted OAuth state ", path.as_str(), ": ");
                join2(head.as_str(), source.as_str())
            },
            StateStoreError::Serialize(source) => join2(
                "failed to serialize OAuth state: ",
                source.as_str(),
            ),
            StateStoreError::Encrypt => "failed to encrypt OAuth state".to_owned(),
            StateStoreError::Write { path, source } => {
                let head: String = join3("failed to write encrypted OAuth state ", path.as_str(), ": ");
                join2(head.as_str(), source.as_str())
            },
            StateStoreError::Permissions(source) => join2(
                "encrypted OAuth state file permission check failed: ",
                source.as_str(),
            ),
        }
    }
}

// ---------------------------------------------------------------------------
// The format
// ---------------------------------------------------------------------------
/// The length of the mark at the start of a state file.
pub const MAGIC_BYTES: usize = 7;

/// The length of the nonce behind the mark.
pub const NONCE_BYTES: usize = 12;

/// The length of the key.
pub const KEY_BYTES: usize = 32;

/// The mark at the start of a state file: `OSMCP1` and a zero byte.
pub open spec fn state_magic() -> Seq<u8> {
    seq![0x4f, 0x53, 0x4d, 0x43, 0x50, 0x31, 0x00]
}

/// The data that every sealed state is bound to.
pub open spec fn state_aad() -> Seq<u8> {
    vstd::utf8::encode_utf8("onshape-mcp-oauth-state-v1"@)
}

/// The contents of a state file: the mark, the nonce, the sealed state.
pub open spec fn framed(nonce: Seq<u8>, sealed: Seq<u8>) -> Seq<u8> {
    state_magic() + nonce + sealed
}

/// Whether some bytes have the form of a state file.
pub open spec fn is_framed(content: Seq<u8>) -> bool {
    content.len() > MAGIC_BYTES + NONCE_BYTES && content.take(MAGIC_BYTES as int) == state_magic()
}

/// What a key makes of the contents of a state file.
pub open spec fn opened(key: Seq<u8>, content: Seq<u8>) -> Option<Seq<u8>> {
    let nonce = content.subrange(MAGIC_BYTES as int, MAGIC_BYTES + NONCE_BYTES);
    let sealed = content.skip(MAGIC_BYTES + NONCE_BYTES);
    if sealed.len() <= GCM_MAX_MESSAGE + GCM_TAG_BYTES {
        outside::gcm_opened(key, nonce, state_aad(), sealed)
    } else {
        None
    }
}

/// What a store reads in the contents of a state file: the state, or the error.
pub open spec fn read_content(store: StoreView, content: Seq<u8>) -> Result<
    Seq<u8>,
    StateStoreErrorView,
> {
    if !is_framed(content) {
        Err(StateStoreErrorView::InvalidFormat(store.path))
    } else {
        match opened(store.key, content) {
            Some(plaintext) => Ok(plaintext),
            None => Err(StateStoreErrorView::Decrypt(store.path)),
        }
    }
}

/// The key that decoded bytes make, if they make one.
pub open spec fn key_verdict(bytes: Option<Seq<u8>>) -> Option<Seq<u8>> {
    if bytes is Some && bytes->0.len() == KEY_BYTES {
        bytes
    } else {
        None
    }
}

/// Whether a text stands for a key: it is the key's base64 text. White space around it does not
/// count.
pub open spec fn is_key_text(encoded: Seq<char>, key: Seq<u8>) -> bool {
    key.len() == KEY_BYTES && text::trimmed(encoded) == encoding::base64_text(key)
}

/// Every key has a text, and a text stands for one key at most.
pub proof fn law_key_text_is_unambiguous(encoded: Seq<char>, key: Seq<u8>, other: Seq<u8>)
    requires
        key.len() == KEY_BYTES,
    ensures
        is_key_text(encoding::base64_text(key), key),
        is_key_text(encoded, key) && is_key_text(encoded, other) ==> key == other,
{
    encoding::lemma_base64_is_trimmed(key);
    if is_key_text(encoded, key) && is_key_text(encoded, other) {
        encoding::law_base64_is_unambiguous(key, other);
    }
}

/// What was found where the state file should be.
pub enum FileProbe {
    /// There is no file.
    Absent,
    /// The file's permissions are too wide.
    Exposed(String),
    /// The file could not be read.
    Unreadable(String),
    /// The contents of the file.
    Content(Vec<u8>),
}

/// Whether permission bits let nobody but the owner at a file: those of the group and of others are
/// all clear.
pub fn is_owner_only(mode: u32) -> (r: bool)
    ensures
        r == (mode % 64 == 0),
{
    mode % 64 == 0
}

/// Whether a replacement of the state file that failed is tried again: another program held the file
/// for the moment, and there is time left.
pub fn retry_replacement(denied: bool, in_time: bool) -> (r: bool)
    ensures
        r == (denied && in_time),
{
    denied && in_time
}

// ---------------------------------------------------------------------------
// The store
// ---------------------------------------------------------------------------
/// Where the state is kept, and the key that it is sealed with.
pub struct EncryptedStateStore {
    path: String,
    key: [u8; 32],
}

/// The view of an [`EncryptedStateStore`].
pub struct StoreView {
    /// The state file.
    pub path: Seq<char>,
    /// The key.
    pub key: Seq<u8>,
}

impl View for EncryptedStateStore {
    type V = StoreView;

    closed spec fn view(&self) -> StoreView {
        StoreView { path: self.path@, key: self.key@ }
    }
}

fn key_array(bytes: &Vec<u8>) -> (r: [u8; 32])
    requires
        bytes@.len() == KEY_BYTES,
    ensures
        r@ == bytes@,
{
    let mut key: [u8; 32] = [0u8; 32];
    let mut i: usize = 0;
    while i < 32
        invariant
            i <= 32,
            bytes@.len() == 32,
            forall|j: int| 0 <= j < i ==> key@[j] == bytes@[j],
        decreases 32 - i,
    {
        key[i] = bytes[i];
        i = i + 1;
    }
    proof {
        assert(key@ =~= bytes@);
    }
    key
}

fn nonce_array(bytes: &[u8]) -> (r: [u8; 12])
    requires
        bytes@.len() == NONCE_BYTES,
    ensures
        r@ == bytes@,
{
    let mut nonce: [u8; 12] = [0u8; 12];
    let mut i: usize = 0;
    while i < 12
        invariant
            i <= 12,
            bytes@.len() == 12,
            forall|j: int| 0 <= j < i ==> nonce@[j] == bytes@[j],
        decreases 12 - i,
    {
        nonce[i] = bytes[i];
        i = i + 1;
    }
    proof {
        assert(nonce@ =~= bytes@);
    }
    nonce
}

fn aad() -> (r: &'static [u8])
    ensures
        r@ == state_aad(),
        r@.len() <= GCM_MAX_MESSAGE,
{
    let name: &'static str = "onshape-mcp-oauth-state-v1";
    let bytes: &'static [u8] = name.as_bytes();
    proof {
        reveal_strlit("onshape-mcp-oauth-state-v1");
        vstd::string::is_ascii_spec_bytes(name);
    }
    bytes
}

/// The key that decoded bytes make.
pub fn key_from(bytes: Option<Vec<u8>>) -> (r: Result<[u8; 32], StateStoreError>)
    ensures
        match key_verdict(outside::opt_bytes(bytes)) {
            Some(key) => r matches Ok(k) && k@ == key,
            None => r == Err::<[u8; 32], StateStoreError>(StateStoreError::InvalidKey),
        },
{
    match bytes {
        Some(bytes) => if bytes.len() == KEY_BYTES {
            Ok(key_array(&bytes))
        } else {
            Err(StateStoreError::InvalidKey)
        },
        None => Err(StateStoreError::InvalidKey),
    }
}

/// Puts the mark, the nonce and the sealed state together.
pub fn join_frame(nonce: &[u8; 12], sealed: Vec<u8>) -> (r: Vec<u8>)
    ensures
        r@ == framed(nonce@, sealed@),
{
    let mut content: Vec<u8> = vec![0x4f, 0x53, 0x4d, 0x43, 0x50, 0x31, 0x00];
    let mut i: usize = 0;
    proof {
        assert(content@ =~= state_magic() + nonce@.take(0));
    }
    while i < 12
        invariant
            i <= 12,
            nonce@.len() == 12,
            content@ == state_magic() + nonce@.take(i as int),
        decreases 12 - i,
    {
        content.push(nonce[i]);
        i = i + 1;
        proof {
            assert(content@ =~= state_magic() + nonce@.take(i as int));
        }
    }
    let mut tail: Vec<u8> = sealed;
    content.append(&mut tail);
    proof {
        assert(nonce@.take(12) =~= nonce@);
        assert(content@ =~= framed(nonce@, sealed@));
    }
    content
}

/// Takes the nonce and the sealed state out of the contents of a state file, if they have the form
/// of one.
pub fn split_frame(content: &Vec<u8>) -> (r: Option<([u8; 12], &[u8])>)
    ensures
        r is Some <==> is_framed(content@),
        r matches Some(parts) ==> {
            &&& parts.0@ == content@.subrange(MAGIC_BYTES as int, MAGIC_BYTES + NONCE_BYTES)
            &&& parts.1@ == content@.skip(MAGIC_BYTES + NONCE_BYTES)
            &&& content@ == framed(parts.0@, parts.1@)
        },
{
    let bytes: &[u8] = content.as_slice();
    if bytes.len() <= MAGIC_BYTES + NONCE_BYTES || !(bytes[0] == 0x4f && bytes[1] == 0x53
        && bytes[2] == 0x4d && bytes[3] == 0x43 && bytes[4] == 0x50 && bytes[5] == 0x31
        && bytes[6] == 0x00) {
        proof {
            if is_framed(content@) {
                assert(content@.take(7)[0] == state_magic()[0]);
                assert(content@.take(7)[1] == state_magic()[1]);
                assert(content@.take(7)[2] == state_magic()[2]);
                assert(content@.take(7)[3] == state_magic()[3]);
                assert(content@.take(7)[4] == state_magic()[4]);
                assert(content@.take(7)[5] == state_magic()[5]);
                assert(content@.take(7)[6] == state_magic()[6]);
            }
        }
        return None;
    }
    let nonce: [u8; 12] = nonce_array(
        slice_subrange(bytes, MAGIC_BYTES, MAGIC_BYTES + NONCE_BYTES),
    );
    let sealed: &[u8] = slice_subrange(bytes, MAGIC_BYTES + NONCE_BYTES, bytes.len());
    proof {
        assert(content@.take(7) =~= state_magic());
        assert(sealed@ =~= content@.skip(MAGIC_BYTES + NONCE_BYTES));
        assert(content@ =~= framed(nonce@, sealed@));
    }
    Some((nonce, sealed))
}

/// The view of what was loaded.
pub open spec fn loaded_view(r: Result<Option<Vec<u8>>, StateStoreError>) -> Result<
    Option<Seq<u8>>,
    StateStoreErrorView,
> {
    match r {
        Ok(state) => Ok(outside::opt_bytes(state)),
        Err(e) => Err(e@),
    }
}

/// What a store makes of what was found: no state where there is no file, else the state or the error.
pub open spec fn loaded(store: StoreView, probe: FileProbe) -> Result<
    Option<Seq<u8>>,
    StateStoreErrorView,
> {
    match probe {
        FileProbe::Absent => Ok(None),
        FileProbe::Exposed(reason) => Err(StateStoreErrorView::Permissions(reason@)),
        FileProbe::Unreadable(reason) => Err(StateStoreErrorView::Read(store.path, reason@)),
        FileProbe::Content(content) => match read_content(store, content@) {
            Ok(plaintext) => Ok(Some(plaintext)),
            Err(e) => Err(e),
        },
    }
}

impl EncryptedStateStore {
    /// A store for a file, with the key as base64 text.
    pub fn new(path: String, encoded_key: &str) -> (r: Result<EncryptedStateStore, StateStoreError>)
        ensures
            r is Ok <==> exists|key: Seq<u8>| is_key_text(encoded_key@, key),
            r matches Ok(s) ==> is_key_text(encoded_key@, s@.key) && s@.path == path@,
            r matches Err(e) ==> e@ == StateStoreErrorView::InvalidKey,
    {
        let decoded: Option<Vec<u8>> = base64_decode(trim(encoded_key));
        proof {
            if let Some(bytes) = outside::opt_bytes(decoded) {
                assert forall|key: Seq<u8>| is_key_text(encoded_key@, key) implies key
                    == bytes by {
                    encoding::law_base64_is_unambiguous(key, bytes);
                }
                assert(bytes.len() == KEY_BYTES ==> is_key_text(encoded_key@, bytes));
            }
        }
        match key_from(decoded) {
            Ok(key) => Ok(EncryptedStateStore { path, key }),
            Err(e) => Err(e),
        }
    }

    /// The state file.
    pub fn path(&self) -> (r: &str)
        ensures
            r@ == self@.path,
    {
        self.path.as_str()
    }

    /// The state that is sealed in the contents of a state file.
    pub fn read(&self, content: &Vec<u8>) -> (r: Result<Vec<u8>, StateStoreError>)
        ensures
            errors::result_view(r) == read_content(self@, content@),
    {
        let (nonce, sealed): ([u8; 12], &[u8]) = match split_frame(content) {
            Some(parts) => parts,
            None => return Err(StateStoreError::InvalidFormat { path: self.path.clone() }),
        };
        if sealed.len() as u64 > GCM_MAX_MESSAGE + GCM_TAG_BYTES as u64 {
            return Err(StateStoreError::Decrypt { path: self.path.clone() });
        }
        match gcm_open(&self.key, &nonce, aad(), sealed) {
            Some(plaintext) => Ok(plaintext),
            None => Err(StateStoreError::Decrypt { path: self.path.clone() }),
        }
    }

    /// The state that is sealed in the state file, if there is a file.
    pub fn load(&self, probe: FileProbe) -> (r: Result<Option<Vec<u8>>, StateStoreError>)
        ensures
            loaded_view(r) == loaded(self@, probe),
            match probe {
                FileProbe::Absent => r == Ok::<Option<Vec<u8>>, StateStoreError>(None),
                FileProbe::Exposed(reason) => r matches Err(e) && e@
                    == StateStoreErrorView::Permissions(reason@),
                FileProbe::Unreadable(reason) => r matches Err(e) && e@
                    == StateStoreErrorView::Read(self@.path, reason@),
                FileProbe::Content(content) => match r {
                    Ok(state) => state matches Some(plaintext) && read_content(self@, content@)
                        == Ok::<Seq<u8>, StateStoreErrorView>(plaintext@),
                    Err(e) => read_content(self@, content@) == Err::<
                        Seq<u8>,
                        StateStoreErrorView,
                    >(e@),
                },
            },
    {
        match probe {
            FileProbe::Absent => Ok(None),
            FileProbe::Exposed(reason) => Err(StateStoreError::Permissions(reason)),
            FileProbe::Unreadable(reason) => Err(
                StateStoreError::Read { path: self.path.clone(), source: reason },
            ),
            FileProbe::Content(content) => match self.read(&content) {
                Ok(plaintext) => Ok(Some(plaintext)),
                Err(e) => Err(e),
            },
        }
    }

    /// The contents of a state file in which the state is sealed under a nonce. The same store
    /// reads the state back from it.
    pub fn seal_with(&self, nonce: &[u8; 12], plaintext: &Vec<u8>) -> (r: Result<
        Vec<u8>,
        StateStoreError,
    >)
        ensures
            r is Ok <==> plaintext@.len() <= GCM_MAX_MESSAGE,
            r matches Err(e) ==> e@ == StateStoreErrorView::Encrypt,
            r matches Ok(content) ==> content@ == framed(
                nonce@,
                outside::gcm_sealed(self@.key, nonce@, state_aad(), plaintext@),
            ) && read_content(self@, content@) == Ok::<Seq<u8>, StateStoreErrorView>(plaintext@),
    {
        if plaintext.len() as u64 > GCM_MAX_MESSAGE {
            return Err(StateStoreError::Encrypt);
        }
        let sealed: Vec<u8> = gcm_seal(&self.key, nonce, aad(), plaintext.as_slice());
        let content: Vec<u8> = join_frame(nonce, sealed);
        proof {
            assert(content@.take(7) =~= state_magic());
            assert(content@.subrange(7, 19) =~= nonce@);
            assert(content@.skip(19) =~= sealed@);
        }
        Ok(content)
    }

    /// The contents of a state file in which the state is sealed under a random nonce, unless the
    /// state could not be serialized. The same store reads the state back from it.
    pub fn save(&self, serialized: Result<Vec<u8>, String>) -> (r: Result<Vec<u8>, StateStoreError>)
        ensures
            match serialized {
                Err(reason) => r matches Err(e) && e@ == StateStoreErrorView::Serialize(reason@),
                Ok(plaintext) => {
                    &&& r is Ok <==> plaintext@.len() <= GCM_MAX_MESSAGE
                    &&& r matches Err(e) ==> e@ == StateStoreErrorView::Encrypt
                    &&& r matches Ok(content) ==> {
                        &&& read_content(self@, content@) == Ok::<Seq<u8>, StateStoreErrorView>(
                            plaintext@,
                        )
                        &&& exists|nonce: Seq<u8>|
                            nonce.len() == NONCE_BYTES && content@ == #[trigger] framed(
                                nonce,
                                outside::gcm_sealed(self@.key, nonce, state_aad(), plaintext@),
                            )
                    }
                },
            },
    {
        match serialized {
            Err(reason) => Err(StateStoreError::Serialize(reason)),
            Ok(plaintext) => {
                let drawn: Vec<u8> = random_bytes(NONCE_BYTES);
                let nonce: [u8; 12] = nonce_array(drawn.as_slice());
                self.seal_with(&nonce, &plaintext)
            },
        }
    }
}

} // verus!
