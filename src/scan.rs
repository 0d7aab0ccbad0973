//! Folder scanning: which walked entries are audio tracks, and the metadata
//! record produced for each of them from the tags read out of its container.
use vstd::prelude::*;

use crate::text::{
    chars_of, eq_ignore_ascii_case, lemma_eq_ignore_ascii_case_equivalence, str_eq,
    str_eq_ignore_ascii_case,
};

verus! {

/// How many directory levels below the scanned folder are visited.
pub const MAX_DEPTH: usize = 2;

/// One entry produced by walking the scanned folder.
#[derive(Debug, PartialEq, Eq)]
pub struct WalkEntry {
    /// The entry's full path.
    pub path: String,
    /// The last component of the path.
    pub name: String,
    /// Levels below the scanned folder (the folder itself is at 0).
    pub depth: usize,
    /// Whether the entry is a regular file.
    pub is_file: bool,
}

/// A picture embedded in a tag.
#[derive(Debug, PartialEq, Eq)]
pub struct EmbeddedPicture {
    /// The declared MIME type, if the container declares one.
    pub mime_type: Option<String>,
    /// The picture's bytes.
    pub data: Vec<u8>,
}

/// The fields of a container's primary tag that a scan reports.
#[derive(Debug, PartialEq, Eq)]
pub struct TagFields {
    pub title: Option<String>,
    pub artist: Option<String>,
    pub album: Option<String>,
    /// The embedded pictures, in the order in which the tag holds them.
    pub pictures: Vec<EmbeddedPicture>,
}

/// The record reported for one audio file.
#[derive(Debug, PartialEq, Eq)]
pub struct TrackMetadata {
    pub name: String,
    pub path: String,
    pub title: Option<String>,
    pub artist: Option<String>,
    pub album: Option<String>,
    /// The first embedded picture as a `data:` URL.
    pub cover_data_url: Option<String>,
}

/// Index of the last `.` in `s`, or -1 when there is none.
pub open spec fn last_dot(s: Seq<char>) -> int
    decreases s.len(),
{
    if s.len() == 0 {
        -1
    } else if s.last() == '.' {
        s.len() - 1
    } else {
        last_dot(s.drop_last())
    }
}

/// The extension of a file name: what follows its last `.`, unless the name
/// has no `.`, its only `.` is the first character, or it is `..`.
pub open spec fn extension_of(name: Seq<char>) -> Option<Seq<char>> {
    if name == seq!['.', '.'] || last_dot(name) <= 0 {
        None
    } else {
        Some(name.subrange(last_dot(name) + 1, name.len() as int))
    }
}

/// The extensions of the audio formats a scan reports, compared without ASCII case.
pub open spec fn recognized_extension(ext: Seq<char>) -> bool {
    ||| eq_ignore_ascii_case(ext, seq!['m', 'p', '3'])
    ||| eq_ignore_ascii_case(ext, seq!['f', 'l', 'a', 'c'])
    ||| eq_ignore_ascii_case(ext, seq!['w', 'a', 'v'])
    ||| eq_ignore_ascii_case(ext, seq!['o', 'g', 'g'])
    ||| eq_ignore_ascii_case(ext, seq!['m', '4', 'a'])
}

/// A file name whose extension is a recognized audio extension.
pub open spec fn is_audio_name(name: Seq<char>) -> bool {
    match extension_of(name) {
        Some(ext) => recognized_extension(ext),
        None => false,
    }
}

/// A walked entry that the scan reports: an audio file below the scanned
/// folder and within the depth bound. The entry at depth 0 is the scan root
/// itself, which is never reported: a root that is a file gives an empty scan.
pub open spec fn is_track_entry(e: WalkEntry) -> bool {
    e.is_file && 1 <= e.depth && e.depth <= MAX_DEPTH && is_audio_name(e.name@)
}

proof fn lemma_last_dot_at(s: Seq<char>, k: int)
    requires
        0 <= k < s.len(),
        s[k] == '.',
        forall|j: int| k < j < s.len() ==> s[j] != '.',
    ensures
        last_dot(s) == k,
    decreases s.len(),
{
    if s.last() != '.' {
        assert forall|j: int| k < j < s.drop_last().len() implies s.drop_last()[j] != '.' by {
            assert(s.drop_last()[j] == s[j]);
        }
        lemma_last_dot_at(s.drop_last(), k);
    }
}

proof fn lemma_last_dot_none(s: Seq<char>)
    requires
        forall|j: int| 0 <= j < s.len() ==> s[j] != '.',
    ensures
        last_dot(s) == -1,
    decreases s.len(),
{
    if s.len() > 0 {
        assert forall|j: int| 0 <= j < s.drop_last().len() implies s.drop_last()[j] != '.' by {
            assert(s.drop_last()[j] == s[j]);
        }
        lemma_last_dot_none(s.drop_last());
    }
}

/// The extension of the file name `name` (see `extension_of`).
pub fn file_extension(name: &str) -> (r: Option<String>)
    ensures
        match r {
            Some(e) => extension_of(name@) == Some(e@),
            None => extension_of(name@) is None,
        },
{
    let c = chars_of(name);
    let n = c.len();
    let mut i: usize = n;
    while i > 0 && c[i - 1] != '.'
        invariant
            c@ == name@,
            n == c@.len(),
            i <= n,
            forall|j: int| i <= j < n ==> c@[j] != '.',
        decreases i,
    {
        i = i - 1;
    }
    proof {
        if i > 0 {
            lemma_last_dot_at(name@, i - 1);
        } else {
            lemma_last_dot_none(name@);
        }
    }
    let dot_dot = "..";
    proof {
        reveal_strlit("..");
        assert(dot_dot@ =~= seq!['.', '.']);
    }
    if i <= 1 || str_eq(name, dot_dot) {
        None
    } else {
        Some(name.substring_char(i, n).to_owned())
    }
}

/// Whether `ext` is one of the recognized audio extensions, compared without ASCII case.
pub fn is_audio_extension(ext: &str) -> (r: bool)
    ensures
        r == recognized_extension(ext@),
{
    let (mp3, flac, wav, ogg, m4a) = ("mp3", "flac", "wav", "ogg", "m4a");
    proof {
        reveal_strlit("mp3");
        reveal_strlit("flac");
        reveal_strlit("wav");
        reveal_strlit("ogg");
        reveal_strlit("m4a");
        assert(mp3@ =~= seq!['m', 'p', '3']);
        assert(flac@ =~= seq!['f', 'l', 'a', 'c']);
        assert(wav@ =~= seq!['w', 'a', 'v']);
        assert(ogg@ =~= seq!['o', 'g', 'g']);
        assert(m4a@ =~= seq!['m', '4', 'a']);
    }
    str_eq_ignore_ascii_case(ext, mp3) || str_eq_ignore_ascii_case(ext, flac)
        || str_eq_ignore_ascii_case(ext, wav) || str_eq_ignore_ascii_case(ext, ogg)
        || str_eq_ignore_ascii_case(ext, m4a)
}

/// Whether the file name `name` carries a recognized audio extension.
pub fn is_audio_file_name(name: &str) -> (r: bool)
    ensures
        r == is_audio_name(name@),
{
    match file_extension(name) {
        Some(ext) => is_audio_extension(ext.as_str()),
        None => false,
    }
}

/// The entries of a walk that the scan reports, in walk order: regular files
/// from one to `MAX_DEPTH` levels down whose name has a recognized audio
/// extension. The root itself (depth 0) is never kept, so a root that is not a
/// directory gives no entry.
pub fn select_audio_files(entries: Vec<WalkEntry>) -> (r: Vec<WalkEntry>)
    ensures
        r@ == entries@.filter(|e: WalkEntry| is_track_entry(e)),
{
    let ghost all = entries@;
    let ghost pred = |e: WalkEntry| is_track_entry(e);
    let mut r: Vec<WalkEntry> = Vec::new();
    for e in it: entries.into_iter()
        invariant
            it.seq() == all,
            pred == (|e: WalkEntry| is_track_entry(e)),
            r@ == all.subrange(0, it.index() as int).filter(pred),
    {
        proof {
            let k = it.index() as int;
            assert(all.subrange(0, k + 1) =~= all.subrange(0, k).push(all[k]));
            all.subrange(0, k).lemma_filter_push(all[k], pred);
        }
        let keep = e.is_file && 1 <= e.depth && e.depth <= MAX_DEPTH && is_audio_file_name(
            e.name.as_str(),
        );
        if keep {
            r.push(e);
        }
    }
    proof {
        assert(all.subrange(0, all.len() as int) =~= all);
    }
    r
}

/// The standard base64 text (alphabet `A-Z a-z 0-9 + /`, padded with `=`) of `data`.
pub uninterp spec fn base64_standard(data: Seq<u8>) -> Seq<char>;

/// Inputs short enough that their base64 text has a length that fits in `usize`.
pub open spec fn base64_encodable(len: nat) -> bool {
    4 * ((len + 2) / 3) <= usize::MAX
}

/// Relies on base64's `Engine::encode` with `general_purpose::STANDARD`: the
/// text depends on the bytes alone and holds four characters for each started
/// group of three bytes. It panics only where that length overflows `usize`.
#[verifier::external_body]
fn encode_base64(data: &[u8]) -> (r: String)
    requires
        base64_encodable(data@.len()),
    ensures
        r@ == base64_standard(data@),
        r@.len() == 4 * ((data@.len() + 2) / 3),
{
    base64::Engine::encode(&base64::engine::general_purpose::STANDARD, data)
}

/// The MIME type used for a picture whose container declares none.
pub open spec fn default_mime() -> Seq<char> {
    "application/octet-stream"@
}

/// The view of an optional string.
pub open spec fn opt_view(o: Option<String>) -> Option<Seq<char>> {
    match o {
        Some(s) => Some(s@),
        None => None,
    }
}

/// The `data:` URL of a picture: its MIME type (or the default one), then its
/// bytes in standard base64.
pub open spec fn data_url_of(mime: Option<Seq<char>>, data: Seq<u8>) -> Seq<char> {
    data_url_header(mime) + base64_standard(data)
}

/// What a `data:` URL holds before its payload.
pub open spec fn data_url_header(mime: Option<Seq<char>>) -> Seq<char> {
    let m = match mime {
        Some(m) => m,
        None => default_mime(),
    };
    "data:"@ + m + ";base64,"@
}

/// The cover of a tag: its first picture, as a `data:` URL.
pub open spec fn cover_url_of(pictures: Seq<EmbeddedPicture>) -> Option<Seq<char>> {
    if pictures.len() > 0 {
        Some(data_url_of(opt_view(pictures[0].mime_type), pictures[0].data@))
    } else {
        None
    }
}

/// The pictures of a tag can be encoded: the first one is not too long.
pub open spec fn tags_encodable(tags: Option<TagFields>) -> bool {
    match tags {
        Some(t) => t.pictures@.len() > 0 ==> base64_encodable(t.pictures@[0].data@.len()),
        None => true,
    }
}

/// The record of a track: `name` and `path` as given; with no tag, every tag
/// field is absent; otherwise title, artist and album come from the tag and
/// the cover is the first picture as a `data:` URL.
pub open spec fn is_track_of(
    r: TrackMetadata,
    name: String,
    path: String,
    tags: Option<TagFields>,
) -> bool {
    &&& r.name == name
    &&& r.path == path
    &&& match tags {
        None => {
            &&& r.title is None
            &&& r.artist is None
            &&& r.album is None
            &&& r.cover_data_url is None
        },
        Some(t) => {
            &&& r.title == t.title
            &&& r.artist == t.artist
            &&& r.album == t.album
            &&& opt_view(r.cover_data_url) == cover_url_of(t.pictures@)
        },
    }
}

/// The `data:` URL of a picture with MIME type `mime_type` (the generic
/// binary type when it has none) and bytes `data`.
pub fn cover_data_url(mime_type: &Option<String>, data: &Vec<u8>) -> (r: String)
    requires
        base64_encodable(data@.len()),
    ensures
        r@ == data_url_of(opt_view(*mime_type), data@),
{
    let mut url = "data:".to_owned();
    match mime_type {
        Some(m) => url.append(m.as_str()),
        None => url.append("application/octet-stream"),
    }
    url.append(";base64,");
    let payload = encode_base64(data.as_slice());
    url.append(payload.as_str());
    url
}

/// The cover of a tag whose pictures are `pictures`: the first one as a
/// `data:` URL, or none when there is no picture.
pub fn first_picture_url(pictures: &Vec<EmbeddedPicture>) -> (r: Option<String>)
    requires
        pictures@.len() > 0 ==> base64_encodable(pictures@[0].data@.len()),
    ensures
        opt_view(r) == cover_url_of(pictures@),
{
    if pictures.len() == 0 {
        None
    } else {
        let first = &pictures[0];
        Some(cover_data_url(&first.mime_type, &first.data))
    }
}

/// The record reported for the file `name` at `path`, given the primary tag
/// read from its container, or `None` where the container could not be read
/// or holds no tag: such a file is still reported, with its tag fields absent.
pub fn track_from_tags(name: String, path: String, tags: Option<TagFields>) -> (r: TrackMetadata)
    requires
        tags_encodable(tags),
    ensures
        is_track_of(r, name, path, tags),
{
    match tags {
        None => TrackMetadata {
            name,
            path,
            title: None,
            artist: None,
            album: None,
            cover_data_url: None,
        },
        Some(t) => {
            let cover_data_url = first_picture_url(&t.pictures);
            TrackMetadata {
                name,
                path,
                title: t.title,
                artist: t.artist,
                album: t.album,
                cover_data_url,
            }
        },
    }
}

/// The record reported for the walked file `entry` (see `track_from_tags`).
pub fn track_for_entry(entry: WalkEntry, tags: Option<TagFields>) -> (r: TrackMetadata)
    requires
        tags_encodable(tags),
    ensures
        is_track_of(r, entry.name, entry.path, tags),
{
    track_from_tags(entry.name, entry.path, tags)
}

/// The records of a scan, one per selected entry and in the same order, from
/// each entry paired with the tag read from its container.
pub fn collect_tracks(reads: Vec<(WalkEntry, Option<TagFields>)>) -> (r: Vec<TrackMetadata>)
    requires
        forall|i: int| 0 <= i < reads@.len() ==> tags_encodable(#[trigger] reads@[i].1),
    ensures
        r@.len() == reads@.len(),
        forall|i: int|
            0 <= i < reads@.len() ==> is_track_of(
                #[trigger] r@[i],
                reads@[i].0.name,
                reads@[i].0.path,
                reads@[i].1,
            ),
{
    let ghost all = reads@;
    let mut r: Vec<TrackMetadata> = Vec::new();
    for read in it: reads.into_iter()
        invariant
            it.seq() == all,
            forall|i: int| 0 <= i < all.len() ==> tags_encodable(#[trigger] all[i].1),
            r@.len() == it.index(),
            forall|i: int|
                0 <= i < it.index() ==> is_track_of(
                    #[trigger] r@[i],
                    all[i].0.name,
                    all[i].0.path,
                    all[i].1,
                ),
    {
        let (entry, tags) = read;
        r.push(track_for_entry(entry, tags));
    }
    r
}

/// The number of entries whose name carries a recognized audio extension.
pub open spec fn audio_count(entries: Seq<WalkEntry>) -> nat {
    entries.filter(|e: WalkEntry| is_audio_name(e.name@)).len()
}

/// The number of entries whose name carries no recognized audio extension.
pub open spec fn other_count(entries: Seq<WalkEntry>) -> nat {
    entries.filter(|e: WalkEntry| !is_audio_name(e.name@)).len()
}

/// Of a walk whose entries are all files below the scanned folder and within
/// the depth bound, N with a recognized audio extension and M without, the
/// scan keeps exactly N entries, one per such file, and N + M is the whole walk.
pub proof fn lemma_selected_count(entries: Seq<WalkEntry>)
    requires
        forall|i: int| 0 <= i < entries.len() ==> #[trigger] entries[i].is_file
            && 1 <= entries[i].depth && entries[i].depth <= MAX_DEPTH,
    ensures
        entries.filter(|e: WalkEntry| is_track_entry(e)).len() == audio_count(entries),
        audio_count(entries) + other_count(entries) == entries.len(),
    decreases entries.len(),
{
    let sel = |e: WalkEntry| is_track_entry(e);
    let aud = |e: WalkEntry| is_audio_name(e.name@);
    let oth = |e: WalkEntry| !is_audio_name(e.name@);
    if entries.len() == 0 {
        assert(entries.filter(sel) =~= Seq::<WalkEntry>::empty());
        assert(entries.filter(aud) =~= Seq::<WalkEntry>::empty());
        assert(entries.filter(oth) =~= Seq::<WalkEntry>::empty());
    } else {
        let init = entries.drop_last();
        let x = entries.last();
        assert forall|i: int| 0 <= i < init.len() implies #[trigger] init[i].is_file
            && 1 <= init[i].depth && init[i].depth <= MAX_DEPTH by {
            assert(init[i] == entries[i]);
        }
        lemma_selected_count(init);
        assert(entries =~= init.push(x));
        init.lemma_filter_push(x, sel);
        init.lemma_filter_push(x, aud);
        init.lemma_filter_push(x, oth);
        assert(x.is_file && 1 <= x.depth && x.depth <= MAX_DEPTH) by {
            assert(x == entries[entries.len() - 1]);
        }
    }
}

/// An entry more than `MAX_DEPTH` levels below the scanned folder is never
/// reported, whatever its extension.
pub proof fn lemma_deep_entry_excluded(entries: Seq<WalkEntry>, e: WalkEntry)
    requires
        e.depth > MAX_DEPTH,
    ensures
        !entries.filter(|e: WalkEntry| is_track_entry(e)).contains(e),
{
    let sel = |e: WalkEntry| is_track_entry(e);
    if entries.filter(sel).contains(e) {
        entries.lemma_filter_contains_rev(sel, e);
    }
}

/// The scan root itself (depth 0) is never reported: a walk of a root that is
/// a file, whose only entry is that file, gives an empty scan.
pub proof fn lemma_root_entry_excluded(entries: Seq<WalkEntry>)
    requires
        forall|i: int| 0 <= i < entries.len() ==> #[trigger] entries[i].depth == 0,
    ensures
        entries.filter(|e: WalkEntry| is_track_entry(e)).len() == 0,
{
    let sel = |e: WalkEntry| is_track_entry(e);
    entries.lemma_all_neg_filter_empty(sel);
}

/// Extension matching ignores ASCII case: two file names whose extensions
/// differ only in the case of ASCII letters are both audio names or neither.
pub proof fn lemma_extension_case_insensitive(a: Seq<char>, b: Seq<char>)
    requires
        extension_of(a) is Some,
        extension_of(b) is Some,
        eq_ignore_ascii_case(extension_of(a)->0, extension_of(b)->0),
    ensures
        is_audio_name(a) == is_audio_name(b),
{
    let ea = extension_of(a)->0;
    let eb = extension_of(b)->0;
    lemma_eq_ignore_ascii_case_equivalence(ea, eb, seq!['m', 'p', '3']);
    lemma_eq_ignore_ascii_case_equivalence(eb, ea, seq!['m', 'p', '3']);
    lemma_eq_ignore_ascii_case_equivalence(ea, eb, seq!['f', 'l', 'a', 'c']);
    lemma_eq_ignore_ascii_case_equivalence(eb, ea, seq!['f', 'l', 'a', 'c']);
    lemma_eq_ignore_ascii_case_equivalence(ea, eb, seq!['w', 'a', 'v']);
    lemma_eq_ignore_ascii_case_equivalence(eb, ea, seq!['w', 'a', 'v']);
    lemma_eq_ignore_ascii_case_equivalence(ea, eb, seq!['o', 'g', 'g']);
    lemma_eq_ignore_ascii_case_equivalence(eb, ea, seq!['o', 'g', 'g']);
    lemma_eq_ignore_ascii_case_equivalence(ea, eb, seq!['m', '4', 'a']);
    lemma_eq_ignore_ascii_case_equivalence(eb, ea, seq!['m', '4', 'a']);
}

/// A file read with no tag is reported by its name and path alone, with
/// title, artist, album and cover all absent.
pub proof fn lemma_untagged_track(r: TrackMetadata, name: String, path: String)
    requires
        is_track_of(r, name, path, None),
    ensures
        r.name@ == name@,
        r.path@ == path@,
        r.title is None && r.artist is None && r.album is None,
        r.cover_data_url is None,
{
}

/// A cover URL gives back the picture: it is the header naming the MIME type
/// followed by exactly the base64 text of the picture's bytes.
pub proof fn lemma_cover_payload(mime: Option<Seq<char>>, data: Seq<u8>)
    ensures
        ({
            let url = data_url_of(mime, data);
            let h = data_url_header(mime);
            &&& url.subrange(0, h.len() as int) == h
            &&& url.subrange(h.len() as int, url.len() as int) == base64_standard(data)
        }),
{
    let url = data_url_of(mime, data);
    let h = data_url_header(mime);
    assert(url.subrange(0, h.len() as int) =~= h);
    assert(url.subrange(h.len() as int, url.len() as int) =~= base64_standard(data));
}

} // verus!
