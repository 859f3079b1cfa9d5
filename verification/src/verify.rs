//! Integrity of an installed tree: its checksum, and the comparison of a
//! checksum with the one that was expected.
//!
//! The checksum of a tree is the SHA-256 digest, in hexadecimal, of the
//! contents of its regular files written one after another, the files taken
//! in ascending order of their names. Only the last component of a file's
//! path counts as its name; files of the same name keep the order in which
//! the tree was walked.

use vstd::prelude::*;
use crate::text::{followed_by, decimal, decimal_string, str_eq};

verus! {

/// A regular file of a tree: the last component of its path, and its content.
#[derive(Clone, Debug, PartialEq, Eq)]
pub struct FileEntry {
    pub name: Vec<u8>,
    pub data: Vec<u8>,
}

/// The mathematical value of a [`FileEntry`].
pub struct FileView {
    pub name: Seq<u8>,
    pub data: Seq<u8>,
}

impl View for FileEntry {
    type V = FileView;

    open spec fn view(&self) -> FileView {
        FileView { name: self.name@, data: self.data@ }
    }
}

/// The views of a vector of files.
pub open spec fn file_views(v: Seq<FileEntry>) -> Seq<FileView> {
    v.map_values(|f: FileEntry| f@)
}

/// Whether `a` comes before `b`, or is `b`, in the order of byte strings:
/// the first byte in which they differ decides, and a string comes before
/// every longer string that it opens.
pub open spec fn name_le(a: Seq<u8>, b: Seq<u8>) -> bool
    decreases a.len(),
{
    if a.len() == 0 {
        true
    } else if b.len() == 0 {
        false
    } else if a[0] != b[0] {
        a[0] < b[0]
    } else {
        name_le(a.drop_first(), b.drop_first())
    }
}

/// Every byte string comes before itself or is itself.
pub proof fn lemma_name_le_reflexive(a: Seq<u8>)
    ensures
        name_le(a, a),
    decreases a.len(),
{
    if a.len() > 0 {
        lemma_name_le_reflexive(a.drop_first());
    }
}

/// Of two byte strings one comes before the other, or they are the same.
pub proof fn lemma_name_le_total(a: Seq<u8>, b: Seq<u8>)
    ensures
        name_le(a, b) || name_le(b, a),
    decreases a.len(),
{
    if a.len() > 0 && b.len() > 0 && a[0] == b[0] {
        lemma_name_le_total(a.drop_first(), b.drop_first());
    }
}

/// The order of byte strings is transitive.
pub proof fn lemma_name_le_transitive(a: Seq<u8>, b: Seq<u8>, c: Seq<u8>)
    requires
        name_le(a, b),
        name_le(b, c),
    ensures
        name_le(a, c),
    decreases a.len(),
{
    if a.len() > 0 && b.len() > 0 && c.len() > 0 && a[0] == b[0] && b[0] == c[0] {
        lemma_name_le_transitive(a.drop_first(), b.drop_first(), c.drop_first());
    }
}

/// Whether `a` comes before `b`, or is `b`, in the order of byte strings.
pub fn name_before_or_same(a: &Vec<u8>, b: &Vec<u8>) -> (r: bool)
    ensures
        r == name_le(a@, b@),
{
    let mut i: usize = 0;
    assert(a@.skip(0) =~= a@ && b@.skip(0) =~= b@);
    while i < a.len() && i < b.len()
        invariant
            i <= a.len(),
            i <= b.len(),
            name_le(a@, b@) == name_le(a@.skip(i as int), b@.skip(i as int)),
        decreases a.len() - i,
    {
        if a[i] != b[i] {
            return a[i] < b[i];
        }
        assert(a@.skip(i as int).drop_first() =~= a@.skip(i + 1));
        assert(b@.skip(i as int).drop_first() =~= b@.skip(i + 1));
        i += 1;
    }
    i == a.len()
}

/// `s` with `f` put in behind the last file whose name comes before `f`'s or
/// is the same.
pub open spec fn insert_by_name(s: Seq<FileView>, f: FileView) -> Seq<FileView>
    decreases s.len(),
{
    if s.len() == 0 {
        seq![f]
    } else if name_le(s.last().name, f.name) {
        s.push(f)
    } else {
        insert_by_name(s.drop_last(), f).push(s.last())
    }
}

/// The files in ascending order of their names, files of the same name in
/// the order in which they stand in `s`.
pub open spec fn sort_by_name(s: Seq<FileView>) -> Seq<FileView>
    decreases s.len(),
{
    if s.len() == 0 {
        Seq::empty()
    } else {
        insert_by_name(sort_by_name(s.drop_last()), s.last())
    }
}

/// Whether the names ascend.
pub open spec fn ascending(s: Seq<FileView>) -> bool {
    forall|i: int, j: int| 0 <= i < j < s.len() ==> name_le(#[trigger] s[i].name, #[trigger] s[j].name)
}

/// The contents of the files, written one after another.
pub open spec fn concat_data(s: Seq<FileView>) -> Seq<u8>
    decreases s.len(),
{
    if s.len() == 0 {
        Seq::empty()
    } else {
        concat_data(s.drop_last()) + s.last().data
    }
}

/// The bytes that the checksum of a tree is taken of.
pub open spec fn hash_input(files: Seq<FileView>) -> Seq<u8> {
    concat_data(sort_by_name(files))
}

/// Putting a file in at `pos` is what [`insert_by_name`] does, where every
/// file from `pos` on has a name behind the new file's and the file before
/// `pos`, if there is one, has not.
pub proof fn lemma_insert_position(s: Seq<FileView>, f: FileView, pos: int)
    requires
        0 <= pos <= s.len(),
        forall|k: int| pos <= k < s.len() ==> !name_le(#[trigger] s[k].name, f.name),
        pos > 0 ==> name_le(s[pos - 1].name, f.name),
    ensures
        insert_by_name(s, f) == s.insert(pos, f),
    decreases s.len() - pos,
{
    if pos == s.len() {
        if s.len() == 0 {
            assert(seq![f] =~= s.insert(pos, f));
        } else {
            assert(s.push(f) =~= s.insert(pos, f));
        }
    } else {
        assert(!name_le(s[s.len() - 1].name, f.name));
        let front = s.drop_last();
        assert forall|k: int| pos <= k < front.len() implies !name_le(
            #[trigger] front[k].name,
            f.name,
        ) by {
            assert(front[k] == s[k]);
        }
        lemma_insert_position(front, f, pos);
        assert(front.insert(pos, f).push(s.last()) =~= s.insert(pos, f));
    }
}

/// The files of `files` at the positions in `order`.
pub open spec fn pick(files: Seq<FileView>, order: Seq<usize>) -> Seq<FileView> {
    Seq::new(order.len(), |k: int| files[order[k] as int])
}

/// The positions of the files in ascending order of their names, files of
/// the same name in the order in which they stand in `files`.
pub fn sorted_order(files: &Vec<FileEntry>) -> (order: Vec<usize>)
    ensures
        order@.len() == files@.len(),
        forall|k: int| 0 <= k < order@.len() ==> #[trigger] order@[k] < files@.len(),
        pick(file_views(files@), order@) == sort_by_name(file_views(files@)),
{
    let ghost fv = file_views(files@);
    let mut order: Vec<usize> = Vec::new();
    let mut i: usize = 0;
    assert(pick(fv, order@) =~= sort_by_name(fv.take(0)));
    while i < files.len()
        invariant
            i <= files.len(),
            fv == file_views(files@),
            order@.len() == i,
            forall|k: int| 0 <= k < order@.len() ==> #[trigger] order@[k] < i,
            pick(fv, order@) == sort_by_name(fv.take(i as int)),
        decreases files.len() - i,
    {
        let ghost sorted = pick(fv, order@);
        let mut pos: usize = order.len();
        while pos > 0 && !name_before_or_same(&files[order[pos - 1]].name, &files[i].name)
            invariant
                pos <= order@.len(),
                i < files.len(),
                fv == file_views(files@),
                sorted == pick(fv, order@),
                forall|k: int| 0 <= k < order@.len() ==> #[trigger] order@[k] < i,
                forall|k: int|
                    pos <= k < sorted.len() ==> !name_le(#[trigger] sorted[k].name, fv[i as int].name),
            decreases pos,
        {
            pos -= 1;
        }
        proof {
            lemma_insert_position(sorted, fv[i as int], pos as int);
            assert(fv.take(i + 1).drop_last() =~= fv.take(i as int));
        }
        order.insert(pos, i);
        assert(pick(fv, order@) =~= sorted.insert(pos as int, fv[i as int]));
        i += 1;
    }
    assert(fv.take(files@.len() as int) =~= fv);
    order
}

/// The bytes that the checksum of a tree is taken of: the contents of
/// `files`, in ascending order of the files' names, one after another.
pub fn checksum_input(files: &Vec<FileEntry>) -> (buf: Vec<u8>)
    ensures
        buf@ == hash_input(file_views(files@)),
{
    let ghost fv = file_views(files@);
    let order = sorted_order(files);
    let ghost sorted = pick(fv, order@);
    let mut buf: Vec<u8> = Vec::new();
    let mut k: usize = 0;
    while k < order.len()
        invariant
            k <= order@.len(),
            fv == file_views(files@),
            sorted == pick(fv, order@),
            forall|j: int| 0 <= j < order@.len() ==> #[trigger] order@[j] < files@.len(),
            buf@ == concat_data(sorted.take(k as int)),
        decreases order.len() - k,
    {
        let data = &files[order[k]].data;
        let ghost before = buf@;
        let mut j: usize = 0;
        while j < data.len()
            invariant
                j <= data.len(),
                buf@ == before + data@.take(j as int),
            decreases data.len() - j,
        {
            buf.push(data[j]);
            assert(data@.take(j + 1) =~= data@.take(j as int).push(data@[j as int]));
            j += 1;
        }
        proof {
            assert(data@.take(data@.len() as int) =~= data@);
            assert(sorted.take(k + 1).drop_last() =~= sorted.take(k as int));
            assert(sorted.take(k + 1).last().data == data@);
        }
        k += 1;
    }
    assert(sorted.take(order@.len() as int) =~= sorted);
    buf
}

/// The SHA-256 digest of a byte string.
pub uninterp spec fn sha256_of(data: Seq<u8>) -> Seq<u8>;

/// `sha2::Sha256::digest`: the SHA-256 digest of `data`.
#[verifier::external_body]
pub(crate) fn sha256(data: &[u8]) -> (out: Vec<u8>)
    ensures
        out@ == sha256_of(data@),
{
    <sha2::Sha256 as sha2::Digest>::digest(data).to_vec()
}

/// The lower-case hexadecimal digit for a number below 16.
pub open spec fn hex_digit(n: int) -> char {
    if n < 10 {
        (n + 48) as u8 as char
    } else {
        (n + 87) as u8 as char
    }
}

/// The bytes in lower-case hexadecimal, two digits each, the high one first.
pub open spec fn hex_of(data: Seq<u8>) -> Seq<char> {
    Seq::new(
        2 * data.len(),
        |i: int|
            hex_digit(
                if i % 2 == 0 {
                    data[i / 2] as int / 16
                } else {
                    data[i / 2] as int % 16
                },
            ),
    )
}

/// `hex::encode`: each byte becomes two lower-case hexadecimal digits, the
/// high half first.
#[verifier::external_body]
pub(crate) fn hex_encode(data: &[u8]) -> (out: String)
    ensures
        out@ == hex_of(data@),
{
    hex::encode(data)
}

/// The checksum of a tree with the given files.
pub open spec fn dir_hash(files: Seq<FileView>) -> Seq<char> {
    hex_of(sha256_of(hash_input(files)))
}

/// Why a tree or a file is not what it was expected to be.
#[derive(Clone, Debug, PartialEq, Eq)]
pub enum VerifyError {
    /// The tree's checksum is not the expected one.
    ChecksumMismatch { computed: String, expected: String },
    /// The signature is not valid base64.
    SignatureEncoding,
    /// The signature has another length than a signature has.
    SignatureLength { length: usize },
    /// The signature is not one of the trusted key on the data.
    SignatureRejected,
}

/// The mathematical value of a [`VerifyError`].
pub enum VerifyErrorView {
    ChecksumMismatch { computed: Seq<char>, expected: Seq<char> },
    SignatureEncoding,
    SignatureLength { length: usize },
    SignatureRejected,
}

impl View for VerifyError {
    type V = VerifyErrorView;

    open spec fn view(&self) -> VerifyErrorView {
        match *self {
            VerifyError::ChecksumMismatch { computed, expected } => VerifyErrorView::ChecksumMismatch {
                computed: computed@,
                expected: expected@,
            },
            VerifyError::SignatureEncoding => VerifyErrorView::SignatureEncoding,
            VerifyError::SignatureLength { length } => VerifyErrorView::SignatureLength { length },
            VerifyError::SignatureRejected => VerifyErrorView::SignatureRejected,
        }
    }
}

/// The outcome of comparing a computed checksum with the expected one.
pub open spec fn checksum_verdict(computed: Seq<char>, expected: Seq<char>) -> Result<
    (),
    VerifyErrorView,
> {
    if computed == expected {
        Ok(())
    } else {
        Err(VerifyErrorView::ChecksumMismatch { computed, expected })
    }
}

/// The view of an outcome.
pub open spec fn verdict_view(r: Result<(), VerifyError>) -> Result<(), VerifyErrorView> {
    match r {
        Ok(_) => Ok(()),
        Err(e) => Err(e@),
    }
}

/// Computes the checksum of a tree from its regular files, given in the
/// order in which the tree was walked.
pub fn compute_dir_hash(files: &Vec<FileEntry>) -> (hash: String)
    ensures
        hash@ == dir_hash(file_views(files@)),
{
    let input = checksum_input(files);
    let digest = sha256(input.as_slice());
    hex_encode(digest.as_slice())
}

/// Compares a computed checksum with the expected one, character by character.
pub fn check_checksum(computed: String, checksum: &str) -> (r: Result<(), VerifyError>)
    ensures
        verdict_view(r) == checksum_verdict(computed@, checksum@),
{
    if str_eq(computed.as_str(), checksum) {
        Ok(())
    } else {
        Err(VerifyError::ChecksumMismatch { computed, expected: checksum.to_string() })
    }
}

/// Verifies a tree against `checksum`: succeeds exactly where the tree's
/// checksum is `checksum`, and otherwise reports both.
pub fn verify(files: &Vec<FileEntry>, checksum: &str) -> (r: Result<(), VerifyError>)
    ensures
        verdict_view(r) == checksum_verdict(dir_hash(file_views(files@)), checksum@),
{
    check_checksum(compute_dir_hash(files), checksum)
}

/// The key whose signatures are trusted. It is fixed when the backend is
/// built; the key of all zeros stands in until a real one is put here.
pub const PUBLIC_KEY: [u8; 32] = [
    0, 0, 0, 0, 0, 0, 0, 0,
    0, 0, 0, 0, 0, 0, 0, 0,
    0, 0, 0, 0, 0, 0, 0, 0,
    0, 0, 0, 0, 0, 0, 0, 0,
];

/// The length of a signature, in bytes.
pub const SIGNATURE_LENGTH: usize = 64;

/// The bytes that a text in standard base64, with padding, stands for;
/// `None` where the text is no such base64.
pub uninterp spec fn base64_decoded(text: Seq<char>) -> Option<Seq<u8>>;

/// `base64::engine::general_purpose::STANDARD.decode`: the bytes that `text`
/// stands for, or nothing where `text` is not base64 of the standard
/// alphabet with canonical padding.
#[verifier::external_body]
pub(crate) fn base64_decode(text: &str) -> (out: Option<Vec<u8>>)
    ensures
        match out {
            Some(bytes) => base64_decoded(text@) == Some(bytes@),
            None => base64_decoded(text@).is_none(),
        },
{
    base64::Engine::decode(&base64::engine::general_purpose::STANDARD, text).ok()
}

/// Whether `signature` is an Ed25519 signature of `message` that the public
/// key `key` accepts. A key or a signature of the wrong length, and a key
/// that is no point of the curve, accept nothing.
pub uninterp spec fn ed25519_accepts(key: Seq<u8>, message: Seq<u8>, signature: Seq<u8>) -> bool;

/// `ed25519_dalek::VerifyingKey::verify` on the key and the signature that
/// the given bytes stand for: whether the signature is valid.
#[verifier::external_body]
pub(crate) fn ed25519_verify(key: &[u8], message: &[u8], signature: &[u8]) -> (ok: bool)
    ensures
        ok == ed25519_accepts(key@, message@, signature@),
{
    match (
        ed25519_dalek::VerifyingKey::try_from(key),
        ed25519_dalek::Signature::from_slice(signature),
    ) {
        (Ok(k), Ok(s)) => ed25519_dalek::Verifier::verify(&k, message, &s).is_ok(),
        _ => false,
    }
}

/// What is made of a decoded signature: it must have been decoded, and have
/// the length of a signature.
pub open spec fn signature_of(decoded: Option<Seq<u8>>) -> Result<Seq<u8>, VerifyErrorView> {
    match decoded {
        None => Err(VerifyErrorView::SignatureEncoding),
        Some(bytes) => if bytes.len() == SIGNATURE_LENGTH {
            Ok(bytes)
        } else {
            Err(VerifyErrorView::SignatureLength { length: bytes.len() as usize })
        },
    }
}

/// Checks a decoded signature: it must have been decoded, and have the
/// length of a signature.
pub fn check_signature_bytes(decoded: Option<Vec<u8>>) -> (r: Result<Vec<u8>, VerifyError>)
    ensures
        match r {
            Ok(bytes) => signature_of(
                match decoded {
                    Some(d) => Some(d@),
                    None => None,
                },
            ) == Ok::<Seq<u8>, VerifyErrorView>(bytes@),
            Err(e) => signature_of(
                match decoded {
                    Some(d) => Some(d@),
                    None => None,
                },
            ) == Err::<Seq<u8>, VerifyErrorView>(e@),
        },
{
    match decoded {
        None => Err(VerifyError::SignatureEncoding),
        Some(bytes) => {
            if bytes.len() == SIGNATURE_LENGTH {
                Ok(bytes)
            } else {
                Err(VerifyError::SignatureLength { length: bytes.len() })
            }
        },
    }
}

/// The outcome of verifying `signature`, given in base64, on `data` with
/// the key `key`.
pub open spec fn signature_verdict(key: Seq<u8>, data: Seq<u8>, signature: Seq<char>) -> Result<
    (),
    VerifyErrorView,
> {
    match signature_of(base64_decoded(signature)) {
        Err(e) => Err(e),
        Ok(bytes) => if ed25519_accepts(key, data, bytes) {
            Ok(())
        } else {
            Err(VerifyErrorView::SignatureRejected)
        },
    }
}

/// Verifies that `signature`, given in base64, is a signature of the
/// trusted key on `data`. Fails where the signature cannot be decoded, has
/// the wrong length, or is not accepted.
pub fn verify_signature(data: &[u8], signature: &str) -> (r: Result<(), VerifyError>)
    ensures
        verdict_view(r) == signature_verdict(PUBLIC_KEY@, data@, signature@),
{
    let bytes = match check_signature_bytes(base64_decode(signature)) {
        Ok(bytes) => bytes,
        Err(e) => {
            return Err(e);
        },
    };
    let key = PUBLIC_KEY;
    if ed25519_verify(key.as_slice(), data, bytes.as_slice()) {
        Ok(())
    } else {
        Err(VerifyError::SignatureRejected)
    }
}

/// What a verification error tells the user.
pub open spec fn verify_message(e: VerifyErrorView) -> Seq<char> {
    match e {
        VerifyErrorView::ChecksumMismatch { computed, expected } => "Checksum mismatch: computed "@
            + computed + ", expected "@ + expected,
        VerifyErrorView::SignatureEncoding => "Signature is not valid base64"@,
        VerifyErrorView::SignatureLength { length } => "Signature has "@ + decimal(length as nat)
            + " bytes, expected 64"@,
        VerifyErrorView::SignatureRejected => "Signature rejected"@,
    }
}

impl VerifyError {
    /// What this error tells the user.
    pub fn message(&self) -> (text: String)
        ensures
            text@ == verify_message(self@),
    {
        match self {
            VerifyError::ChecksumMismatch { computed, expected } => {
                let mut text = followed_by("Checksum mismatch: computed ", computed.as_str());
                text.append(", expected ");
                text.append(expected.as_str());
                text
            },
            VerifyError::SignatureEncoding => "Signature is not valid base64".to_string(),
            VerifyError::SignatureLength { length } => {
                let mut text = followed_by("Signature has ", decimal_string(*length as u64).as_str());
                text.append(" bytes, expected 64");
                text
            },
            VerifyError::SignatureRejected => "Signature rejected".to_string(),
        }
    }
}

/// Putting a file into an ascending list keeps the list ascending, adds the
/// file and nothing else, and leaves the other files in their order.
pub proof fn lemma_insert_by_name(s: Seq<FileView>, f: FileView)
    requires
        ascending(s),
    ensures
        ascending(insert_by_name(s, f)),
        insert_by_name(s, f).len() == s.len() + 1,
        insert_by_name(s, f).to_multiset() == s.to_multiset().insert(f),
    decreases s.len(),
{
    broadcast use vstd::multiset::group_multiset_axioms;

    let r = insert_by_name(s, f);
    if s.len() == 0 {
        assert(s =~= Seq::<FileView>::empty());
        assert(r =~= s.push(f));
        vstd::seq_lib::to_multiset_build(s, f);
    } else if name_le(s.last().name, f.name) {
        assert forall|i: int, j: int| 0 <= i < j < r.len() implies name_le(
            #[trigger] r[i].name,
            #[trigger] r[j].name,
        ) by {
            if j == s.len() {
                if i < s.len() - 1 {
                    assert(name_le(s[i].name, s[s.len() - 1].name));
                    lemma_name_le_transitive(s[i].name, s.last().name, f.name);
                }
            }
        }
        vstd::seq_lib::to_multiset_build(s, f);
    } else {
        let front = s.drop_last();
        let t = insert_by_name(front, f);
        assert(ascending(front));
        lemma_insert_by_name(front, f);
        lemma_name_le_total(s.last().name, f.name);
        assert forall|k: int| 0 <= k < t.len() implies name_le(
            #[trigger] t[k].name,
            s.last().name,
        ) by {
            // `t[k]` is the new file or one of the files before the last.
            assert(t.to_multiset().count(t[k]) > 0) by {
                vstd::seq_lib::to_multiset_contains(t, t[k]);
            }
            if t[k] != f {
                assert(front.to_multiset().count(t[k]) > 0);
                vstd::seq_lib::to_multiset_contains(front, t[k]);
                let i = choose|i: int| 0 <= i < front.len() && front[i] == t[k];
                assert(name_le(s[i].name, s[s.len() - 1].name));
            }
        }
        assert forall|i: int, j: int| 0 <= i < j < r.len() implies name_le(
            #[trigger] r[i].name,
            #[trigger] r[j].name,
        ) by {
            if j < t.len() {
                assert(r[i] == t[i] && r[j] == t[j]);
            } else {
                assert(r[i] == t[i]);
            }
        }
        vstd::seq_lib::to_multiset_build(t, s.last());
        vstd::seq_lib::to_multiset_build(front, s.last());
        assert(s =~= front.push(s.last()));
        assert(r.to_multiset() =~= s.to_multiset().insert(f));
    }
}

/// Sorting puts the names in ascending order and neither adds nor drops a file.
pub proof fn lemma_sort_by_name(s: Seq<FileView>)
    ensures
        ascending(sort_by_name(s)),
        sort_by_name(s).len() == s.len(),
        sort_by_name(s).to_multiset() == s.to_multiset(),
    decreases s.len(),
{
    if s.len() == 0 {
        assert(sort_by_name(s) =~= s);
    } else {
        lemma_sort_by_name(s.drop_last());
        lemma_insert_by_name(sort_by_name(s.drop_last()), s.last());
        vstd::seq_lib::to_multiset_build(s.drop_last(), s.last());
        assert(s =~= s.drop_last().push(s.last()));
    }
}

/// The contents of the files, one for each file.
pub open spec fn contents(s: Seq<FileView>) -> Seq<Seq<u8>> {
    s.map_values(|f: FileView| f.data)
}

/// What the contents of a list of files make when they are written one
/// after another depends on the contents alone, not on the names.
pub proof fn lemma_concat_data_of_contents(a: Seq<FileView>, b: Seq<FileView>)
    requires
        contents(a) == contents(b),
    ensures
        concat_data(a) == concat_data(b),
    decreases a.len(),
{
    assert(a.len() == contents(a).len());
    assert(b.len() == contents(b).len());
    if a.len() > 0 {
        assert(contents(a.drop_last()) =~= contents(a).drop_last());
        assert(contents(b.drop_last()) =~= contents(b).drop_last());
        assert(a.last().data == contents(a).last());
        assert(b.last().data == contents(b).last());
        lemma_concat_data_of_contents(a.drop_last(), b.drop_last());
    }
}

/// Two trees have the same checksum where their files, taken in the order
/// of their names, have the same contents one by one. The directories in
/// which the files lie, and the names themselves, do not enter the checksum.
pub proof fn lemma_checksum_of_sorted_contents(a: Seq<FileView>, b: Seq<FileView>)
    requires
        contents(sort_by_name(a)) == contents(sort_by_name(b)),
    ensures
        dir_hash(a) == dir_hash(b),
{
    lemma_concat_data_of_contents(sort_by_name(a), sort_by_name(b));
}

/// A tree that has not changed has the checksum that it had, and is
/// verified by it.
pub proof fn lemma_checksum_is_stable(a: Seq<FileView>, b: Seq<FileView>)
    requires
        a == b,
    ensures
        dir_hash(a) == dir_hash(b),
        checksum_verdict(dir_hash(b), dir_hash(a)).is_ok(),
{
}

/// The files of the list that have the name `n`, in the list's order.
pub open spec fn named(s: Seq<FileView>, n: Seq<u8>) -> Seq<FileView>
    decreases s.len(),
{
    if s.len() == 0 {
        Seq::empty()
    } else if s.last().name == n {
        named(s.drop_last(), n).push(s.last())
    } else {
        named(s.drop_last(), n)
    }
}

/// A file that is put into an ascending list comes behind the files of its
/// own name; the files of any other name are left as they were.
pub proof fn lemma_insert_behind_same_name(s: Seq<FileView>, f: FileView, n: Seq<u8>)
    ensures
        named(insert_by_name(s, f), n) == if f.name == n {
            named(s, n).push(f)
        } else {
            named(s, n)
        },
    decreases s.len(),
{
    let r = insert_by_name(s, f);
    if s.len() == 0 {
        assert(r.drop_last() =~= s);
    } else if name_le(s.last().name, f.name) {
        assert(r.drop_last() =~= s);
    } else {
        let t = insert_by_name(s.drop_last(), f);
        lemma_insert_behind_same_name(s.drop_last(), f, n);
        assert(r.drop_last() =~= t);
        assert(r.last() == s.last());
        if s.last().name == f.name {
            lemma_name_le_reflexive(f.name);
        }
    }
}

/// Sorting leaves the files of one name in the order in which they stood.
pub proof fn lemma_sort_keeps_order_of_same_name(s: Seq<FileView>, n: Seq<u8>)
    ensures
        named(sort_by_name(s), n) == named(s, n),
    decreases s.len(),
{
    if s.len() > 0 {
        lemma_sort_keeps_order_of_same_name(s.drop_last(), n);
        lemma_insert_behind_same_name(sort_by_name(s.drop_last()), s.last(), n);
    }
}

} // verus!
