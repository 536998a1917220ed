//! Configuration of the single vhost-user virtio-fs device.
use vstd::prelude::*;
use vstd::string::*;
use vstd::utf8::*;

verus! {

/// The fixed virtio-fs tag used by the sandbox guest.
pub const DEFAULT_FS_TAG: &'static str = "sandboxfs";

/// Maximum tag length defined by the virtio-fs device configuration.
pub const FS_TAG_MAX_LEN: usize = 36;

/// The tag of a configuration that does not name one.
pub fn default_tag() -> (tag: String)
    ensures
        tag@ == DEFAULT_FS_TAG@,
{
    DEFAULT_FS_TAG.to_owned()
}

/// Configuration for the single vhost-user virtio-fs device.
#[derive(Debug, PartialEq, Eq)]
pub struct FsConfig {
    /// Device identifier. It must match the identifier in the API path.
    pub fs_id: String,
    /// Path to the vhost-user Unix domain socket served by virtiofsd.
    pub socket_path: String,
    /// Filesystem tag exposed to the guest.
    pub tag: String,
}

impl Clone for FsConfig {
    fn clone(&self) -> (copy: Self)
        ensures
            copy == *self,
    {
        FsConfig {
            fs_id: self.fs_id.clone(),
            socket_path: self.socket_path.clone(),
            tag: self.tag.clone(),
        }
    }
}

/// Errors associated with virtio-fs configuration.
#[derive(Debug)]
pub enum FsConfigError {
    /// The virtio-fs socket path cannot be empty.
    EmptySocketPath,
    /// The virtio-fs tag must contain between 1 and 36 non-NUL bytes.
    InvalidTag,
    /// Only one virtio-fs device is supported; already configured as the given one.
    DeviceAlreadyExists(String),
}

impl FsConfigError {
    /// The text of `message`.
    pub open spec fn text(self) -> Seq<char> {
        match self {
            FsConfigError::EmptySocketPath => "The virtio-fs socket path cannot be empty."@,
            FsConfigError::InvalidTag =>
                "The virtio-fs tag must contain between 1 and 36 non-NUL bytes."@,
            FsConfigError::DeviceAlreadyExists(id) =>
                "Only one virtio-fs device is supported; already configured as `"@ + id@ + "`."@,
        }
    }

    /// The message shown to the user.
    pub fn message(&self) -> (message: String)
        ensures
            message@ == self.text(),
    {
        match self {
            FsConfigError::EmptySocketPath =>
                "The virtio-fs socket path cannot be empty.".to_owned(),
            FsConfigError::InvalidTag =>
                "The virtio-fs tag must contain between 1 and 36 non-NUL bytes.".to_owned(),
            FsConfigError::DeviceAlreadyExists(id) => {
                let mut message =
                    "Only one virtio-fs device is supported; already configured as `".to_owned();
                message.append(id.as_str());
                message.append("`.");
                message
            },
        }
    }
}

/// A tag takes between 1 and `FS_TAG_MAX_LEN` bytes, none of which is NUL.
pub open spec fn tag_valid(tag: Seq<char>) -> bool {
    &&& 0 < encode_utf8(tag).len() <= FS_TAG_MAX_LEN
    &&& !tag.contains('\0')
}

/// A character other than NUL is encoded without zero bytes.
proof fn lemma_scalar_zero_free(c: u32)
    requires
        is_scalar(c),
    ensures
        c == 0 ==> encode_scalar(c) == seq![0u8],
        c != 0 ==> !encode_scalar(c).contains(0u8),
        encode_scalar(c).len() > 0,
{
    assert(c == 0 ==> (c & 0x7F) as u8 == 0) by (bit_vector);
    assert(0 < c <= 0x7F ==> (c & 0x7F) as u8 != 0) by (bit_vector);
    assert(forall|x: u8| #[trigger] (0xC0u8 | x) != 0) by (bit_vector);
    assert(forall|x: u8| #[trigger] (0xE0u8 | x) != 0) by (bit_vector);
    assert(forall|x: u8| #[trigger] (0xF0u8 | x) != 0) by (bit_vector);
    assert(forall|x: u8| #[trigger] (0x80u8 | x) != 0) by (bit_vector);
}

/// The encoding of a text has a zero byte exactly where the text has a NUL character.
pub proof fn lemma_nul_byte(text: Seq<char>)
    ensures
        encode_utf8(text).contains(0u8) <==> text.contains('\0'),
        encode_utf8(text).len() == 0 <==> text.len() == 0,
    decreases text.len(),
{
    if text.len() > 0 {
        let first = encode_scalar(text[0] as u32);
        let rest = text.drop_first();
        char_is_scalar(text[0]);
        lemma_scalar_zero_free(text[0] as u32);
        lemma_nul_byte(rest);
        let bytes = encode_utf8(text);
        assert(bytes == first + encode_utf8(rest));
        if text.contains('\0') {
            let i = choose|i: int| 0 <= i < text.len() && text[i] == '\0';
            if i == 0 {
                assert(bytes[0] == 0u8);
            } else {
                assert(rest[i - 1] == '\0');
                let k = choose|k: int|
                    0 <= k < encode_utf8(rest).len() && encode_utf8(rest)[k] == 0u8;
                assert(bytes[first.len() + k] == 0u8);
            }
        }
        if bytes.contains(0u8) {
            let k = choose|k: int| 0 <= k < bytes.len() && bytes[k] == 0u8;
            if k < first.len() {
                assert(first[k] == 0u8);
                assert(first.contains(0u8));
                assert(text[0] as u32 == 0u32);
                char_u32_cast(text[0], 0u32);
                char_u32_cast('\0', 0u32);
                assert(text[0] == '\0');
            } else {
                assert(encode_utf8(rest)[k - first.len()] == 0u8);
                assert(rest.contains('\0'));
                let i = choose|i: int| 0 <= i < rest.len() && rest[i] == '\0';
                assert(text[i + 1] == '\0');
            }
        }
    }
}

/// Whether `bytes` holds a zero.
fn has_zero(bytes: &[u8]) -> (found: bool)
    ensures
        found == bytes@.contains(0u8),
{
    let mut i: usize = 0;
    while i < bytes.len()
        invariant
            i <= bytes@.len(),
            forall|k: int| 0 <= k < i ==> bytes@[k] != 0u8,
        decreases bytes@.len() - i,
    {
        if bytes[i] == 0 {
            return true;
        }
        i += 1;
    }
    false
}

impl FsConfig {
    /// Validates the fields that their types do not check.
    pub fn validate(&self) -> (valid: Result<(), FsConfigError>)
        ensures
            match valid {
                Ok(_) => self.socket_path@.len() > 0 && tag_valid(self.tag@),
                Err(FsConfigError::EmptySocketPath) => self.socket_path@.len() == 0,
                Err(FsConfigError::InvalidTag) => self.socket_path@.len() > 0 && !tag_valid(
                    self.tag@,
                ),
                Err(FsConfigError::DeviceAlreadyExists(_)) => false,
            },
    {
        if self.socket_path.as_str().is_empty() {
            return Err(FsConfigError::EmptySocketPath);
        }
        proof {
            lemma_nul_byte(self.tag@);
        }
        let tag: &[u8] = self.tag.as_str().as_bytes();
        if tag.len() == 0 || tag.len() > FS_TAG_MAX_LEN || has_zero(tag) {
            return Err(FsConfigError::InvalidTag);
        }
        Ok(())
    }
}

/// A tag is valid exactly where its bytes are between one and thirty-six, none of them zero: then
/// it fits the configuration space, and its end can be told.
pub proof fn law_a_valid_tag_fits_and_ends(tag: Seq<char>)
    ensures
        tag_valid(tag) <==> {
            &&& 1 <= encode_utf8(tag).len() <= 36
            &&& forall|i: int|
                0 <= i < encode_utf8(tag).len() ==> #[trigger] encode_utf8(tag)[i] != 0
        },
{
    lemma_nul_byte(tag);
    if encode_utf8(tag).contains(0u8) {
        let i = choose|i: int| 0 <= i < encode_utf8(tag).len() && encode_utf8(tag)[i] == 0u8;
        assert(encode_utf8(tag)[i] == 0);
    }
}

/// A configuration is valid exactly where it names a socket and has a valid tag; a missing socket
/// is found first. The identifier is not looked at.
pub proof fn law_a_valid_configuration_names_a_socket(
    config: FsConfig,
    valid: Result<(), FsConfigError>,
)
    requires
        call_ensures(FsConfig::validate, (&config,), valid),
    ensures
        valid is Ok <==> config.socket_path@.len() > 0 && 1 <= encode_utf8(config.tag@).len() <= 36
            && !encode_utf8(config.tag@).contains(0u8),
        valid is Err && valid->Err_0 is EmptySocketPath <==> config.socket_path@.len() == 0,
        valid is Err && !(valid->Err_0 is EmptySocketPath) ==> valid->Err_0 is InvalidTag,
{
    lemma_nul_byte(config.tag@);
}

/// A configuration that does not name a tag gets the one that the guest looks for.
pub proof fn law_the_default_tag(tag: String)
    requires
        call_ensures(default_tag, (), tag),
    ensures
        tag@ =~= seq!['s', 'a', 'n', 'd', 'b', 'o', 'x', 'f', 's'],
{
    reveal_strlit("sandboxfs");
}

/// The message for a second device names the first: messages for different identifiers differ.
pub proof fn law_the_message_names_the_device(a: String, b: String, x: String, y: String)
    requires
        call_ensures(
            FsConfigError::message,
            (&FsConfigError::DeviceAlreadyExists(a),),
            x,
        ),
        call_ensures(
            FsConfigError::message,
            (&FsConfigError::DeviceAlreadyExists(b),),
            y,
        ),
        x@ == y@,
    ensures
        a@ == b@,
{
    let prefix = "Only one virtio-fs device is supported; already configured as `"@;
    let suffix = "`."@;
    assert(x@ == prefix + a@ + suffix);
    assert(y@ == prefix + b@ + suffix);
    assert(x@.len() == y@.len());
    let n = prefix.len() as int;
    assert(x@.subrange(n, n + a@.len()) =~= a@);
    assert(y@.subrange(n, n + b@.len()) =~= b@);
}

} // verus!
