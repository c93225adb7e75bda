//! Costumes: the images of a target, each stored under a name that is
//! derived from its content.

use crate::text::{digit, digit_char, push_quoted, quoted};
use vstd::prelude::*;
use vstd::string::StringExecFns;

verus! {

/// The MD5 digest of `content`: sixteen bytes.
pub uninterp spec fn md5_digest(content: Seq<u8>) -> Seq<u8>;

/// `md5::compute`: the digest of the bytes, which depends on them alone. The
/// crate hands it out as an array of sixteen bytes.
#[verifier::external_body]
fn digest_of(content: &[u8]) -> (digest: [u8; 16])
    ensures
        digest@ == md5_digest(content@),
{
    md5::compute(content).0
}

/// The bytes in hexadecimal, two lower-case digits each.
pub open spec fn hex(bytes: Seq<u8>) -> Seq<char>
    decreases bytes.len(),
{
    if bytes.len() == 0 {
        Seq::empty()
    } else {
        hex(bytes.drop_last()) + seq![
            digit((bytes.last() / 16) as nat),
            digit((bytes.last() % 16) as nat),
        ]
    }
}

/// The digest in hexadecimal.
fn to_hex(digest: &[u8; 16]) -> (text: String)
    ensures
        text@ == hex(digest@),
{
    let mut text = String::new();
    let mut i: usize = 0;
    while i < 16
        invariant
            i <= 16,
            text@ == hex(digest@.take(i as int)),
        decreases 16 - i,
    {
        let byte: u8 = digest[i];
        assert(digest@.take(i + 1).drop_last() == digest@.take(i as int));
        text.push(digit_char((byte / 16) as u32));
        text.push(digit_char((byte % 16) as u32));
        i = i + 1;
    }
    assert(digest@.take(16) == digest@);
    text
}

/// A costume as the encoder and the archive see it.
pub struct CostumeView {
    pub name: Seq<char>,
    pub data_format: Seq<char>,
    pub asset_id: Seq<char>,
    pub md5ext: Seq<char>,
    pub content: Seq<u8>,
}

impl CostumeView {
    /// The costume with the given name, whose image has the given format and
    /// content: the asset is named by the digest of the content, and stored
    /// under that name, a point and the format.
    pub open spec fn new(name: Seq<char>, data_format: Seq<char>, content: Seq<u8>) -> Self {
        let asset_id = hex(md5_digest(content));
        CostumeView {
            name,
            data_format,
            asset_id,
            md5ext: asset_id + seq!['.'] + data_format,
            content,
        }
    }

    /// The descriptor of the costume in the wire format.
    pub open spec fn text(self) -> Seq<char> {
        "{\"name\":"@ + quoted(self.name) + ",\"dataFormat\":"@ + quoted(self.data_format)
            + ",\"assetId\":"@ + quoted(self.asset_id) + ",\"md5ext\":"@ + quoted(self.md5ext)
            + seq!['}']
    }
}

/// A costume: an image with a display name.
pub struct Costume {
    name: String,
    data_format: String,
    asset_id: String,
    md5ext: String,
    content: Vec<u8>,
}

impl View for Costume {
    type V = CostumeView;

    closed spec fn view(&self) -> CostumeView {
        CostumeView {
            name: self.name@,
            data_format: self.data_format@,
            asset_id: self.asset_id@,
            md5ext: self.md5ext@,
            content: self.content@,
        }
    }
}

impl Costume {
    /// The costume `name` whose image is `content`, in the format
    /// `data_format`.
    pub fn new(name: String, data_format: String, content: Vec<u8>) -> (costume: Costume)
        ensures
            costume@ == CostumeView::new(name@, data_format@, content@),
    {
        let digest = digest_of(content.as_slice());
        let asset_id = to_hex(&digest);
        let mut md5ext = asset_id.clone();
        md5ext.push('.');
        md5ext.append(data_format.as_str());
        assert(md5ext@ == asset_id@ + seq!['.'] + data_format@);
        Costume { name, data_format, asset_id, md5ext, content }
    }

    /// The name under which the image is stored in the archive.
    pub fn md5ext(&self) -> (name: &str)
        ensures
            name@ == self@.md5ext,
    {
        self.md5ext.as_str()
    }

    /// The image.
    pub fn content(&self) -> (content: &[u8])
        ensures
            content@ == self@.content,
    {
        self.content.as_slice()
    }

    /// Appends the descriptor of the costume in the wire format.
    pub fn serialize(&self, out: &mut String)
        ensures
            final(out)@ == old(out)@ + self@.text(),
    {
        out.append("{\"name\":");
        push_quoted(out, self.name.as_str());
        out.append(",\"dataFormat\":");
        push_quoted(out, self.data_format.as_str());
        out.append(",\"assetId\":");
        push_quoted(out, self.asset_id.as_str());
        out.append(",\"md5ext\":");
        push_quoted(out, self.md5ext.as_str());
        out.push('}');
    }
}

} // verus!
