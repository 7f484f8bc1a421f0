//! Plain data records shared across the service, and the permission level
//! that decides whether a caller is subject to quota accounting.

use vstd::prelude::*;
use vstd::string::StrSliceExecFns;

use crate::errors::ServiceError;

verus! {

/// Identifier type used for users, sites, sensors and channels.
pub type IdType = i32;

/// Permission level of an account. Administrators bypass quota accounting.
#[derive(Clone, Copy, Debug, PartialEq, Eq, Structural)]
pub enum PermissionType {
    User,
    Admin,
}

impl PermissionType {
    /// The permission encoded by a one-character tag, or `None` for any
    /// other string.
    pub open spec fn spec_from_char(s: Seq<char>) -> Option<PermissionType> {
        if s == seq!['u'] {
            Some(PermissionType::User)
        } else if s == seq!['a'] {
            Some(PermissionType::Admin)
        } else {
            None
        }
    }

    /// The one-character tag of a permission level.
    pub open spec fn spec_to_char(self) -> Seq<char> {
        match self {
            PermissionType::User => seq!['u'],
            PermissionType::Admin => seq!['a'],
        }
    }

    pub fn from_char(name: &str) -> (r: Option<PermissionType>)
        ensures
            r == PermissionType::spec_from_char(name@),
    {
        if name.unicode_len() == 1 {
            let c = name.get_char(0);
            if c == 'u' {
                proof {
                    assert(name@ =~= seq!['u']);
                }
                Some(PermissionType::User)
            } else if c == 'a' {
                proof {
                    assert(name@ =~= seq!['a']);
                }
                Some(PermissionType::Admin)
            } else {
                proof {
                    assert(name@ != seq!['u']);
                    assert(name@ != seq!['a']);
                }
                None
            }
        } else {
            proof {
                assert(name@ != seq!['u']);
                assert(name@ != seq!['a']);
            }
            None
        }
    }

    pub fn to_char(&self) -> (r: &str)
        ensures
            r@ == self.spec_to_char(),
    {
        proof {
            reveal_strlit("u");
            reveal_strlit("a");
        }
        match self {
            PermissionType::User => "u",
            PermissionType::Admin => "a",
        }
    }
}

/// The round trip from a permission level through its tag and back returns
/// the same level.
pub proof fn lemma_permission_char_round_trip(p: PermissionType)
    ensures
        PermissionType::spec_from_char(p.spec_to_char()) == Some(p),
{
    if p is Admin {
        assert(seq!['a'] != seq!['u']) by {
            assert(seq!['a'][0] == 'a');
            assert(seq!['u'][0] == 'u');
        }
    }
}

/// Admission to administrator-only operations: accepts exactly the tag of
/// an administrator; an unknown tag counts as an ordinary user.
pub fn ensure_admin(permission: &str) -> (r: Result<(), ServiceError>)
    ensures
        r is Ok <==> PermissionType::spec_from_char(permission@) == Some(PermissionType::Admin),
        r matches Err(e) ==> e is Unauthorized,
{
    match PermissionType::from_char(permission) {
        Some(PermissionType::Admin) => Ok(()),
        _ => Err(ServiceError::Unauthorized),
    }
}

/// Grants one user access to one site.
#[derive(Clone, Copy, Debug, PartialEq, Eq, Structural)]
pub struct UserAccess {
    pub user_id: IdType,
    pub site_id: IdType,
}

/// A physical sensor installed at a site.
#[derive(Debug)]
pub struct Sensor {
    pub id: IdType,
    pub site_id: IdType,
    pub id_cnr: Option<String>,
    pub name: Option<String>,
    pub loc_x: Option<i32>,
    pub loc_y: Option<i32>,
    pub enabled: bool,
}

/// The state a sensor is displayed in.
#[derive(Clone, Copy, Debug, PartialEq, Eq, Structural)]
pub enum SensorStateType {
    Normal,
    Disabled,
    Alarm,
    Error,
}

impl Sensor {
    /// The sensor's displayed state, given how many of its channels are
    /// currently alarmed.
    pub open spec fn spec_status(&self, alarmed_count: int) -> SensorStateType {
        if !self.enabled {
            SensorStateType::Disabled
        } else if alarmed_count > 0 {
            SensorStateType::Alarm
        } else {
            SensorStateType::Normal
        }
    }

    /// A disabled sensor reads as disabled whatever its channels; an
    /// enabled one is in alarm exactly when any of its channels is.
    pub fn status(&self, alarmed_count: i64) -> (r: SensorStateType)
        ensures
            r == self.spec_status(alarmed_count as int),
    {
        if !self.enabled {
            SensorStateType::Disabled
        } else if alarmed_count > 0 {
            SensorStateType::Alarm
        } else {
            SensorStateType::Normal
        }
    }
}

/// A push-notification registration for one user.
#[derive(Debug)]
pub struct FcmUserContact {
    pub registration_id: String,
    pub user_id: IdType,
}

} // verus!
