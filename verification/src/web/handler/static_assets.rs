//! The files that the server hands out as they are.

use vstd::prelude::*;

verus! {

/// The status of an answer that hands out an asset.
pub const STATUS_OK: u16 = 200;

/// The status of an answer to a request for an asset that is not there.
pub const STATUS_NOT_FOUND: u16 = 404;

/// The content type of an answer without an asset.
pub const TEXT_PLAIN: &'static str = "text/plain; charset=utf-8";

/// One file: where it is found, what kind of content it is, and the content.
#[derive(Debug, Clone, Copy)]
pub struct Asset {
    pub path: &'static str,
    pub content_type: &'static str,
    pub body: &'static [u8],
}

/// What an asset holds: its path, its kind of content and the content.
pub struct AssetView {
    pub path: Seq<char>,
    pub content_type: Seq<char>,
    pub body: Seq<u8>,
}

impl View for Asset {
    type V = AssetView;

    open spec fn view(&self) -> AssetView {
        AssetView { path: self.path@, content_type: self.content_type@, body: self.body@ }
    }
}

/// The assets by path, where an asset put in later replaces an earlier one
/// of the same path.
pub open spec fn assets_by_path(entries: Seq<Asset>) -> Map<Seq<char>, AssetView>
    decreases entries.len(),
{
    if entries.len() == 0 {
        Map::empty()
    } else {
        assets_by_path(entries.drop_last()).insert(entries.last().path@, entries.last()@)
    }
}

/// Whether two texts are the same, character by character.
fn same_text(a: &str, b: &str) -> (same: bool)
    ensures
        same == (a@ == b@),
{
    let len = a.unicode_len();
    if len != b.unicode_len() {
        return false;
    }
    let mut i: usize = 0;
    while i < len
        invariant
            i <= len,
            len == a@.len(),
            len == b@.len(),
            forall|k: int| 0 <= k < i ==> a@[k] == b@[k],
        decreases len - i,
    {
        if a.get_char(i) != b.get_char(i) {
            return false;
        }
        i += 1;
    }
    assert(a@ =~= b@);
    true
}

/// The answer to a request for an asset.
#[derive(Debug, Clone, Copy)]
pub struct AssetResponse {
    pub status: u16,
    pub content_type: &'static str,
    pub body: &'static [u8],
}

/// The assets that the server hands out, by path.
#[derive(Debug)]
pub struct StaticAssets {
    entries: Vec<Asset>,
}

impl View for StaticAssets {
    type V = Map<Seq<char>, AssetView>;

    closed spec fn view(&self) -> Map<Seq<char>, AssetView> {
        assets_by_path(self.entries@)
    }
}

impl StaticAssets {
    /// No assets.
    pub fn new() -> (assets: Self)
        ensures
            assets@ == Map::<Seq<char>, AssetView>::empty(),
    {
        StaticAssets { entries: Vec::new() }
    }

    /// Puts an asset in, in place of any other of the same path.
    pub fn insert(&mut self, asset: Asset)
        ensures
            final(self)@ == old(self)@.insert(asset.path@, asset@),
    {
        let ghost before = self.entries@;
        self.entries.push(asset);
        assert(self.entries@.drop_last() =~= before);
    }

    /// The asset of a path, if there is one.
    pub fn get(&self, path: &str) -> (found: Option<Asset>)
        ensures
            match found {
                Some(asset) => self@.contains_key(path@) && self@[path@] == asset@,
                None => !self@.contains_key(path@),
            },
    {
        let mut i = self.entries.len();
        proof {
            assert(self.entries@.take(i as int) =~= self.entries@);
        }
        while i > 0
            invariant
                i <= self.entries@.len(),
                self@.contains_key(path@) == assets_by_path(
                    self.entries@.take(i as int),
                ).contains_key(path@),
                self@.contains_key(path@) ==> self@[path@] == assets_by_path(
                    self.entries@.take(i as int),
                )[path@],
            decreases i,
        {
            proof {
                assert(self.entries@.take(i as int).drop_last() =~= self.entries@.take(i - 1));
            }
            i -= 1;
            if same_text(self.entries[i].path, path) {
                return Some(self.entries[i]);
            }
        }
        None
    }
}

/// Answers a request for an asset: the asset with [`STATUS_OK`] where there
/// is one of that path, an empty plain text with [`STATUS_NOT_FOUND`] where
/// there is none.
pub fn serve_asset(assets: &StaticAssets, asset_path: &str) -> (response: AssetResponse)
    ensures
        assets@.contains_key(asset_path@) ==> response.status == STATUS_OK
            && response.content_type@ == assets@[asset_path@].content_type && response.body@
            == assets@[asset_path@].body,
        !assets@.contains_key(asset_path@) ==> response.status == STATUS_NOT_FOUND
            && response.content_type@ == TEXT_PLAIN@ && response.body@.len() == 0,
{
    match assets.get(asset_path) {
        Some(asset) => AssetResponse {
            status: STATUS_OK,
            content_type: asset.content_type,
            body: asset.body,
        },
        None => {
            let body: &'static [u8] = &[];
            AssetResponse { status: STATUS_NOT_FOUND, content_type: TEXT_PLAIN, body }
        },
    }
}

} // verus!
