//! Account restrictions that administrators place on users.
use vstd::prelude::*;
use crate::text::str_equal;

verus! {

#[derive(Clone, Copy, Debug, PartialEq, Eq, Structural)]
pub enum RestrictionKind {
    CreateSquad,
    JoinSquad,
    UploadSkin,
}

#[derive(Clone, Copy, Debug, PartialEq, Eq, Structural)]
pub enum RestrictionError {
    UnknownKey,
}

impl RestrictionError {
    pub open spec fn message_spec(self) -> Seq<char> {
        "Unknown restriction key"@
    }

    /// The problem as text.
    pub fn message(&self) -> (r: &'static str)
        ensures
            r@ == self.message_spec(),
    {
        "Unknown restriction key"
    }
}

impl RestrictionKind {
    /// The stored key of the restriction.
    pub open spec fn key(self) -> Seq<char> {
        match self {
            RestrictionKind::CreateSquad => "create_squad"@,
            RestrictionKind::JoinSquad => "join_squad"@,
            RestrictionKind::UploadSkin => "upload_skin"@,
        }
    }

    pub open spec fn from_key_spec(s: Seq<char>) -> Option<RestrictionKind> {
        if s == "create_squad"@ {
            Some(RestrictionKind::CreateSquad)
        } else if s == "join_squad"@ {
            Some(RestrictionKind::JoinSquad)
        } else if s == "upload_skin"@ {
            Some(RestrictionKind::UploadSkin)
        } else {
            None
        }
    }

    pub fn as_str(self) -> (r: &'static str)
        ensures
            r@ == self.key(),
    {
        match self {
            RestrictionKind::CreateSquad => "create_squad",
            RestrictionKind::JoinSquad => "join_squad",
            RestrictionKind::UploadSkin => "upload_skin",
        }
    }

    pub fn title_en(self) -> (r: &'static str)
        ensures
            r@ == (match self {
                RestrictionKind::CreateSquad => "Squad creation restricted"@,
                RestrictionKind::JoinSquad => "Squad joining restricted"@,
                RestrictionKind::UploadSkin => "Skin uploads restricted"@,
            }),
    {
        match self {
            RestrictionKind::CreateSquad => "Squad creation restricted",
            RestrictionKind::JoinSquad => "Squad joining restricted",
            RestrictionKind::UploadSkin => "Skin uploads restricted",
        }
    }

    pub fn description_en(self) -> (r: &'static str)
        ensures
            r@ == (match self {
                RestrictionKind::CreateSquad =>
                    "User cannot create new squads until this restriction is removed."@,
                RestrictionKind::JoinSquad =>
                    "User cannot accept invites or join squads until this restriction is removed."@,
                RestrictionKind::UploadSkin =>
                    "User cannot upload or replace their personal skin until this restriction is removed."@,
            }),
    {
        match self {
            RestrictionKind::CreateSquad =>
                "User cannot create new squads until this restriction is removed.",
            RestrictionKind::JoinSquad =>
                "User cannot accept invites or join squads until this restriction is removed.",
            RestrictionKind::UploadSkin =>
                "User cannot upload or replace their personal skin until this restriction is removed.",
        }
    }

    /// Reads a stored restriction key (the `FromStr` conversion).
    pub fn from_key(s: &str) -> (r: Result<RestrictionKind, RestrictionError>)
        ensures
            match r {
                Ok(k) => RestrictionKind::from_key_spec(s@) == Some(k),
                Err(e) => RestrictionKind::from_key_spec(s@) is None && e == RestrictionError::UnknownKey,
            },
    {
        if str_equal(s, "create_squad") {
            Ok(RestrictionKind::CreateSquad)
        } else if str_equal(s, "join_squad") {
            Ok(RestrictionKind::JoinSquad)
        } else if str_equal(s, "upload_skin") {
            Ok(RestrictionKind::UploadSkin)
        } else {
            Err(RestrictionError::UnknownKey)
        }
    }
}

impl std::str::FromStr for RestrictionKind {
    type Err = RestrictionError;

    fn from_str(s: &str) -> (r: Result<RestrictionKind, RestrictionError>)
        ensures
            match r {
                Ok(k) => RestrictionKind::from_key_spec(s@) == Some(k),
                Err(e) => RestrictionKind::from_key_spec(s@) is None && e == RestrictionError::UnknownKey,
            },
    {
        RestrictionKind::from_key(s)
    }
}

/// Reading the stored key of a restriction gives the restriction back.
pub proof fn lemma_restriction_round_trip(k: RestrictionKind)
    ensures
        RestrictionKind::from_key_spec(k.key()) == Some(k),
{
    reveal_strlit("create_squad");
    reveal_strlit("join_squad");
    reveal_strlit("upload_skin");
    match k {
        RestrictionKind::CreateSquad => {
        },
        RestrictionKind::JoinSquad => {
            assert("join_squad"@[0] != "create_squad"@[0]);
        },
        RestrictionKind::UploadSkin => {
            assert("upload_skin"@[0] != "create_squad"@[0]);
            assert("upload_skin"@[0] != "join_squad"@[0]);
        },
    }
}

} // verus!
