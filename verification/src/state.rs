//! The display data of a metadata record, as the caller supplies it.

use vstd::prelude::*;
use vstd::utf8::encode_utf8;

verus! {

/// One party that shares in the royalties of an asset.
#[derive(Clone, Copy, Debug, PartialEq, Eq)]
pub struct Creator {
    pub address: [u8; 32],
    pub verified: bool,
    /// In percent, not in basis points.
    pub share: u8,
}

/// What a `Creator` stands for in contracts.
pub struct CreatorView {
    pub address: Seq<u8>,
    pub verified: bool,
    pub share: u8,
}

impl View for Creator {
    type V = CreatorView;

    open spec fn view(&self) -> CreatorView {
        CreatorView { address: self.address@, verified: self.verified, share: self.share }
    }
}

/// The display data of a metadata record. Nothing in it is validated here:
/// lengths of the strings and the sum of the shares are the metadata
/// program's concern.
#[derive(Clone, Debug, PartialEq, Eq)]
pub struct Data {
    /// The name of the asset.
    pub name: String,
    /// The symbol of the asset.
    pub symbol: String,
    /// Where the document that describes the asset is found.
    pub uri: String,
    /// Royalty on secondary sales, in basis points.
    pub seller_fee_basis_points: u16,
    /// The creators, in order; `None` where no list is given.
    pub creators: Option<Vec<Creator>>,
}

/// What a `Data` stands for in contracts.
pub struct DataView {
    pub name: Seq<char>,
    pub symbol: Seq<char>,
    pub uri: Seq<char>,
    pub seller_fee_basis_points: u16,
    pub creators: Option<Seq<CreatorView>>,
}

/// The views of a list of creators, in order.
pub open spec fn creator_views(creators: Seq<Creator>) -> Seq<CreatorView> {
    creators.map_values(|c: Creator| c@)
}

/// The view of an optional list of creators: an absent list stays absent, a
/// given list stays given, empty or not.
pub open spec fn optional_creator_views(creators: Option<Vec<Creator>>) -> Option<
    Seq<CreatorView>,
> {
    match creators {
        Some(list) => Some(creator_views(list@)),
        None => None,
    }
}

impl View for Data {
    type V = DataView;

    open spec fn view(&self) -> DataView {
        DataView {
            name: self.name@,
            symbol: self.symbol@,
            uri: self.uri@,
            seller_fee_basis_points: self.seller_fee_basis_points,
            creators: optional_creator_views(self.creators),
        }
    }
}

/// The view of display data that may be absent.
pub open spec fn optional_data_view(data: Option<Data>) -> Option<DataView> {
    match data {
        Some(d) => Some(d@),
        None => None,
    }
}

/// The view of an address that may be absent.
pub open spec fn optional_key_view(key: Option<[u8; 32]>) -> Option<Seq<u8>> {
    match key {
        Some(k) => Some(k@),
        None => None,
    }
}

/// Largest length that the wire format can announce.
pub const MAX_WIRE_LEN: usize = 0xffff_ffff;

impl DataView {
    /// Every address in the list of creators has thirty-two bytes.
    pub open spec fn well_formed(self) -> bool {
        self.creators matches Some(list) ==> forall|i: int|
            0 <= i < list.len() ==> (#[trigger] list[i]).address.len() == 32
    }

    /// The wire format announces each length in four bytes: the three strings,
    /// in UTF-8, and the list of creators must be short enough for that.
    pub open spec fn fits_wire(self) -> bool {
        &&& encode_utf8(self.name).len() <= MAX_WIRE_LEN
        &&& encode_utf8(self.symbol).len() <= MAX_WIRE_LEN
        &&& encode_utf8(self.uri).len() <= MAX_WIRE_LEN
        &&& (self.creators matches Some(list) ==> list.len() <= MAX_WIRE_LEN)
    }
}

/// The display data that is made of the given parts.
pub open spec fn display(
    name: Seq<char>,
    symbol: Seq<char>,
    uri: Seq<char>,
    creators: Option<Vec<Creator>>,
    seller_fee_basis_points: u16,
) -> DataView {
    DataView {
        name,
        symbol,
        uri,
        seller_fee_basis_points,
        creators: optional_creator_views(creators),
    }
}

/// Display data that is made of executable parts is well formed.
pub proof fn lemma_display_well_formed(
    name: Seq<char>,
    symbol: Seq<char>,
    uri: Seq<char>,
    creators: Option<Vec<Creator>>,
    seller_fee_basis_points: u16,
)
    ensures
        display(name, symbol, uri, creators, seller_fee_basis_points).well_formed(),
{
}

/// Whether the wire format has room for the lengths of the display data
/// that is made of the given parts.
pub fn fits_wire(name: &str, symbol: &str, uri: &str, creators: &Option<Vec<Creator>>) -> (fits:
    bool)
    ensures
        forall|fee: u16| fits == (#[trigger] display(name@, symbol@, uri@, *creators, fee)).fits_wire(),
{
    let creators_fit = match creators {
        Some(list) => list.len() <= MAX_WIRE_LEN,
        None => true,
    };
    name.as_bytes().len() <= MAX_WIRE_LEN && symbol.as_bytes().len() <= MAX_WIRE_LEN
        && uri.as_bytes().len() <= MAX_WIRE_LEN && creators_fit
}

impl Data {
    /// Whether the wire format has room for the lengths of this data.
    pub fn fits_wire(&self) -> (fits: bool)
        ensures
            fits == self@.fits_wire(),
    {
        let fits = fits_wire(
            self.name.as_str(),
            self.symbol.as_str(),
            self.uri.as_str(),
            &self.creators,
        );
        assert(self@ == display(
            self.name@,
            self.symbol@,
            self.uri@,
            self.creators,
            self.seller_fee_basis_points,
        ));
        fits
    }

    /// The view of any `Data` is well formed.
    pub proof fn lemma_view_well_formed(self)
        ensures
            self@.well_formed(),
    {
        lemma_display_well_formed(
            self.name@,
            self.symbol@,
            self.uri@,
            self.creators,
            self.seller_fee_basis_points,
        );
    }
}

} // verus!
