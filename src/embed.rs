use vstd::prelude::*;

use crate::catalog::{Cape, LambdaUser};

verus! {

/// Why a record could not be turned into a reply.
#[derive(Clone, Copy, Debug, PartialEq, Eq)]
pub enum EnrichError {
    /// The record lists no cape, so it names no player.
    EmptyCapes,
    /// The profile service did not answer with a profile.
    LookupFailed,
    /// The profile came back without a skin image.
    MissingSkin,
}

/// What the profile service tells of one player.
#[derive(Clone, Debug, PartialEq, Eq)]
pub struct Profile {
    pub name: String,
    pub skin_url: Option<String>,
}

/// A record made ready to show: the player's name, id and skin image, and
/// the record's capes carried through unchanged.
#[derive(Clone, Debug, PartialEq, Eq)]
pub struct PlayerEmbedData {
    pub username: String,
    pub uuid: String,
    pub skin_url: String,
    pub capes: Vec<Cape>,
}

/// The key under which a record's player is looked up: the player of its
/// first cape. A record without capes has none.
pub open spec fn lookup_key_of(u: LambdaUser) -> Result<String, EnrichError> {
    if u.capes@.len() == 0 {
        Err(EnrichError::EmptyCapes)
    } else {
        Ok(u.capes@[0].player_uuid)
    }
}

/// The reply data built from a record and the profile of its player.
pub open spec fn embed_of(u: LambdaUser, p: Profile) -> Result<PlayerEmbedData, EnrichError> {
    if u.capes@.len() == 0 {
        Err(EnrichError::EmptyCapes)
    } else {
        match p.skin_url {
            None => Err(EnrichError::MissingSkin),
            Some(url) => Ok(
                PlayerEmbedData {
                    username: p.name,
                    uuid: u.capes@[0].player_uuid,
                    skin_url: url,
                    capes: u.capes,
                },
            ),
        }
    }
}

impl LambdaUser {
    /// The player id to look up for this record, or `EmptyCapes` when the
    /// record lists no cape.
    pub fn lookup_key(&self) -> (r: Result<String, EnrichError>)
        ensures
            r == lookup_key_of(*self),
    {
        if self.capes.len() == 0 {
            Err(EnrichError::EmptyCapes)
        } else {
            Ok(self.capes[0].player_uuid.clone())
        }
    }
}

impl PlayerEmbedData {
    /// Builds the reply data for a record from its player's profile.
    pub fn new(lambda_user: LambdaUser, profile: Profile) -> (r: Result<PlayerEmbedData, EnrichError>)
        ensures
            r == embed_of(lambda_user, profile),
    {
        if lambda_user.capes.len() == 0 {
            return Err(EnrichError::EmptyCapes);
        }
        let uuid = lambda_user.capes[0].player_uuid.clone();
        match profile.skin_url {
            None => Err(EnrichError::MissingSkin),
            Some(skin_url) => Ok(
                PlayerEmbedData { username: profile.name, uuid, skin_url, capes: lambda_user.capes },
            ),
        }
    }
}

} // verus!
