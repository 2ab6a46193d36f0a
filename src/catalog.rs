use vstd::prelude::*;

verus! {

/// The tag that the catalog writes for a contributor's cape.
pub open spec fn contributor_tag() -> Seq<char> {
    seq!['C', 'O', 'N', 'T', 'R', 'I', 'B', 'U', 'T', 'O', 'R']
}

/// Why a catalog could not be had.
#[derive(Clone, Debug, PartialEq, Eq)]
pub enum CatalogError {
    /// The request failed or the server answered with an error.
    Transport,
    /// The body is not JSON of the catalog's shape.
    Malformed,
    /// A cape carries a `type` tag outside the known set; the tag is kept.
    UnknownCapeType(String),
}

/// The kind of a cape.
#[derive(Clone, Copy, Debug, PartialEq, Eq)]
pub enum Type {
    Contributor,
}

impl Type {
    /// Decodes a cape's `type` tag; an unknown tag is an error that keeps it.
    pub fn from_tag(tag: &str) -> (r: Result<Type, CatalogError>)
        ensures
            tag@ == contributor_tag() ==> r == Ok::<Type, CatalogError>(Type::Contributor),
            tag@ != contributor_tag() ==> (r matches Err(CatalogError::UnknownCapeType(t))
                && t@ == tag@),
    {
        let known = "CONTRIBUTOR";
        proof {
            reveal_strlit("CONTRIBUTOR");
        }
        assert(known@ =~= contributor_tag());
        if crate::text::text_equals(tag, known) {
            Ok(Type::Contributor)
        } else {
            Err(CatalogError::UnknownCapeType(tag.to_owned()))
        }
    }

    /// The tag under which the catalog writes this kind.
    pub fn tag(&self) -> (r: String)
        ensures
            r@ == contributor_tag(),
    {
        let known = "CONTRIBUTOR";
        proof {
            reveal_strlit("CONTRIBUTOR");
        }
        assert(known@ =~= contributor_tag());
        known.to_owned()
    }
}

/// A cape's two colours, kept as the catalog writes them.
#[derive(Clone, Debug, PartialEq, Eq)]
pub struct Color {
    pub primary: String,
    pub border: String,
}

/// One cosmetic cape and the player who wears it.
#[derive(Clone, Debug, PartialEq, Eq)]
pub struct Cape {
    pub cape_uuid: String,
    pub player_uuid: String,
    pub cape_type: Type,
    pub color: Color,
}

/// One record of the catalog.
///
/// `id` is the bit pattern of the number that the catalog gives as the
/// record's identifier: an opaque key, never used in arithmetic.
#[derive(Clone, Debug, PartialEq, Eq)]
pub struct LambdaUser {
    pub id: u64,
    pub capes: Vec<Cape>,
    pub is_premium: bool,
}

/// The whole catalog, in the order in which it lists its records.
pub type LambdaUserList = Vec<LambdaUser>;

} // verus!
