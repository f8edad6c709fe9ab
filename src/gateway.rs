//! Serves the bundled UI assets by path, as the loopback HTTP endpoint does.
use vstd::prelude::*;

verus! {

/// The content type that mime_guess infers from a path.
pub uninterp spec fn guessed_content_type(path: Seq<char>) -> Seq<char>;

/// Relies on `mime_guess::from_path` and `MimeGuess::first_or_octet_stream`:
/// the guess depends on the path's extension alone (a static table), and a
/// path without any `.` has no extension, so it gets the generic binary type.
#[verifier::external_body]
fn content_type_of(path: &str) -> (r: String)
    ensures
        r@ == guessed_content_type(path@),
        !path@.contains('.') ==> r@ == "application/octet-stream"@,
{
    mime_guess::from_path(path).first_or_octet_stream().as_ref().to_string()
}

/// `p` without its leading path separators.
pub open spec fn strip_separators(p: Seq<char>) -> Seq<char>
    decreases p.len(),
{
    if p.len() > 0 && p[0] == '/' {
        strip_separators(p.drop_first())
    } else {
        p
    }
}

/// What the bundle holds under `key`; a later entry shadows an earlier one.
pub open spec fn lookup(entries: Seq<(Seq<char>, Seq<u8>)>, key: Seq<char>) -> Option<Seq<u8>>
    decreases entries.len(),
{
    if entries.len() == 0 {
        None
    } else if entries.last().0 == key {
        Some(entries.last().1)
    } else {
        lookup(entries.drop_last(), key)
    }
}

/// One bundled asset, as served.
#[derive(Clone, Debug, PartialEq, Eq)]
pub struct Asset {
    pub path: String,
    pub data: Vec<u8>,
    pub content_type: String,
}

/// The HTTP answer to `GET /<path>`.
#[derive(Clone, Debug, PartialEq, Eq)]
pub struct HttpReply {
    pub status: u16,
    pub content_type: String,
    pub body: Vec<u8>,
}

/// The immutable set of bundled assets.
pub struct Gateway {
    entries: Vec<(String, Vec<u8>)>,
}

impl View for Gateway {
    type V = Seq<(Seq<char>, Seq<u8>)>;

    closed spec fn view(&self) -> Self::V {
        self.entries@.map_values(|e: (String, Vec<u8>)| (e.0@, e.1@))
    }
}

/// Removes the leading path separators of `path`.
pub fn strip_leading_separators(path: &str) -> (r: &str)
    ensures
        r@ == strip_separators(path@),
{
    let n = path.unicode_len();
    let mut i: usize = 0;
    assert(path@.subrange(0, n as int) =~= path@);
    while i < n && path.get_char(i) == '/'
        invariant
            n == path@.len(),
            i <= n,
            strip_separators(path@) == strip_separators(path@.subrange(i as int, n as int)),
        decreases n - i,
    {
        proof {
            let rest = path@.subrange(i as int, n as int);
            assert(rest.drop_first() =~= path@.subrange(i + 1, n as int));
        }
        i = i + 1;
    }
    proof {
        let rest = path@.subrange(i as int, n as int);
        if i < n {
            assert(rest[0] == path@[i as int]);
        }
    }
    path.substring_char(i, n)
}

impl Gateway {
    pub fn new() -> (g: Gateway)
        ensures
            g@ == Seq::<(Seq<char>, Seq<u8>)>::empty(),
    {
        let g = Gateway { entries: Vec::new() };
        assert(g@ =~= Seq::<(Seq<char>, Seq<u8>)>::empty());
        g
    }

    /// The bundle with `data` added under `path` (shadowing an earlier entry).
    pub fn with_asset(self, path: &str, data: Vec<u8>) -> (g: Gateway)
        ensures
            g@ == self@.push((path@, data@)),
    {
        let mut entries = self.entries;
        entries.push((path.to_owned(), data));
        let g = Gateway { entries };
        assert(g@ =~= self@.push((path@, data@)));
        g
    }

    /// The bytes stored under exactly `key`.
    pub fn find(&self, key: &str) -> (r: Option<&Vec<u8>>)
        ensures
            match r {
                Some(d) => lookup(self@, key@) == Some(d@),
                None => lookup(self@, key@) is None,
            },
    {
        let k = key.to_owned();
        let mut i: usize = self.entries.len();
        assert(self@.take(i as int) =~= self@);
        while i > 0
            invariant
                i <= self.entries.len(),
                k@ == key@,
                lookup(self@, key@) == lookup(self@.take(i as int), key@),
            decreases i,
        {
            let e = &self.entries[i - 1];
            proof {
                let t = self@.take(i as int);
                assert(t.drop_last() =~= self@.take(i - 1));
                assert(t.last() == (e.0@, e.1@));
            }
            if e.0 == k {
                return Some(&e.1);
            }
            i = i - 1;
        }
        assert(self@.take(0) =~= Seq::<(Seq<char>, Seq<u8>)>::empty());
        None
    }

    /// The asset served for `path`: leading separators are stripped, then the
    /// rest must match a bundled path exactly.
    pub fn get(&self, path: &str) -> (r: Option<Asset>)
        ensures
            match lookup(self@, strip_separators(path@)) {
                Some(d) => r matches Some(a) && a.path@ == strip_separators(path@) && a.data@ == d
                    && a.content_type@ == guessed_content_type(strip_separators(path@)),
                None => r is None,
            },
    {
        let key = strip_leading_separators(path);
        match self.find(key) {
            Some(d) => {
                let data = d.clone();
                assert(data@ =~= d@);
                Some(Asset { path: key.to_owned(), data, content_type: content_type_of(key) })
            },
            None => None,
        }
    }

    /// The HTTP reply to `GET /<path>`: 200 with the asset, or 404.
    pub fn respond(&self, path: &str) -> (r: HttpReply)
        ensures
            match lookup(self@, strip_separators(path@)) {
                Some(d) => r.status == 200 && r.body@ == d
                    && r.content_type@ == guessed_content_type(strip_separators(path@)),
                None => r.status == 404 && r.body@.len() == 0 && r.content_type@.len() == 0,
            },
    {
        match self.get(path) {
            Some(a) => HttpReply { status: 200, content_type: a.content_type, body: a.data },
            None => HttpReply { status: 404, content_type: String::new(), body: Vec::new() },
        }
    }
}

/// A leading separator makes no difference: `p` and `/p` are looked up under
/// the same key, so `get` and `respond` serve the same asset for both.
pub proof fn lemma_leading_separator_ignored(entries: Seq<(Seq<char>, Seq<u8>)>, p: Seq<char>)
    ensures
        strip_separators(seq!['/'] + p) == strip_separators(p),
        lookup(entries, strip_separators(seq!['/'] + p)) == lookup(entries, strip_separators(p)),
{
    let q = seq!['/'] + p;
    assert(q[0] == '/');
    assert(q.drop_first() =~= p);
}

} // verus!
