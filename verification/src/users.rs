//! The user and group manager: names for user and group identifiers, group
//! membership, and the credential check, which for now accepts everything.
use vstd::prelude::*;

use std::collections::HashMap;

verus! {

broadcast use vstd::std_specs::hash::group_hash_axioms;

/// The identifier of a user.
pub type User_identifier_type = u16;

/// The identifier of a group.
pub type Group_identifier_type = u16;

/// The identifier of the root user.
pub const Root_user_identifier: User_identifier_type = 0;

/// What the manager can fail with.
#[derive(Clone, Copy, Debug, PartialEq, Eq, Structural)]
pub enum Error_type {
    Too_many_users,
    Too_many_groups,
    Duplicate_user_identifier,
    Duplicate_group_identifier,
    Invalid_user_identifier,
    Invalid_group_identifier,
}

/// Every operation of the manager returns this result.
pub type Result_type<T> = core::result::Result<T, Error_type>;

/// The key a group membership is filed under: the group identifier in the
/// high bits, the user identifier in the low bits.
pub open spec fn Membership_key_spec(
    Group: Group_identifier_type,
    User: User_identifier_type,
) -> u32 {
    (Group * 0x10000 + User) as u32
}

/// Law: membership keys are injective; two group/user pairs collide
/// exactly when both parts are the same.
pub proof fn Lemma_membership_key_injective(
    Group_1: Group_identifier_type,
    User_1: User_identifier_type,
    Group_2: Group_identifier_type,
    User_2: User_identifier_type,
)
    ensures
        (Membership_key_spec(Group_1, User_1) == Membership_key_spec(Group_2, User_2)) <==> (Group_1
            == Group_2 && User_1 == User_2),
{
    if Membership_key_spec(Group_1, User_1) == Membership_key_spec(Group_2, User_2) {
        assert(Group_1 == Group_2 && User_1 == User_2) by (nonlinear_arith)
            requires
                0 <= User_1 < 0x10000,
                0 <= User_2 < 0x10000,
                0 <= Group_1,
                0 <= Group_2,
                Group_1 * 0x10000 + User_1 == Group_2 * 0x10000 + User_2,
        ;
    }
}

/// The manager: user names, group names, and group membership.
pub struct Manager_type {
    Users: HashMap<User_identifier_type, String>,
    Groups: HashMap<Group_identifier_type, String>,
    Memberships: HashMap<u32, bool>,
}

impl Manager_type {
    /// The name of every registered user, by identifier.
    pub closed spec fn Users_view(self) -> Map<User_identifier_type, Seq<char>> {
        self.Users@.map_values(|Name: String| Name@)
    }

    /// The name of every registered group, by identifier.
    pub closed spec fn Groups_view(self) -> Map<Group_identifier_type, Seq<char>> {
        self.Groups@.map_values(|Name: String| Name@)
    }

    /// Whether a user is a member of a group.
    pub closed spec fn Is_member(self, User: User_identifier_type, Group: Group_identifier_type) -> bool {
        self.Memberships@.contains_key(Membership_key_spec(Group, User))
    }

    /// The manager's internal consistency: every membership names a group
    /// that exists. Groups are never removed, so every operation keeps it.
    pub open spec fn Is_consistent(self) -> bool {
        forall|User: User_identifier_type, Group: Group_identifier_type| #[trigger]
            self.Is_member(User, Group) ==> self.Groups_view().contains_key(Group)
    }

    /// A manager with no user, no group and no membership.
    pub fn New() -> (Result: Self)
        ensures
            Result.Users_view() == Map::<User_identifier_type, Seq<char>>::empty(),
            Result.Groups_view() == Map::<Group_identifier_type, Seq<char>>::empty(),
            forall|User: User_identifier_type, Group: Group_identifier_type|
                !#[trigger] Result.Is_member(User, Group),
            Result.Is_consistent(),
    {
        let Manager = Manager_type {
            Users: HashMap::new(),
            Groups: HashMap::new(),
            Memberships: HashMap::new(),
        };
        proof {
            assert(Manager.Users_view() =~= Map::<User_identifier_type, Seq<char>>::empty());
            assert(Manager.Groups_view() =~= Map::<Group_identifier_type, Seq<char>>::empty());
        }
        Manager
    }

    /// The lowest free user identifier, if any; the last identifier is
    /// never handed out.
    fn Get_new_user_identifier(&self) -> (Result: Option<User_identifier_type>)
        ensures
            match Result {
                Some(Identifier) => Identifier < u16::MAX && !self.Users_view().contains_key(
                    Identifier,
                ) && forall|Lower: u16|
                    Lower < Identifier ==> self.Users_view().contains_key(Lower),
                None => forall|Lower: u16|
                    Lower < u16::MAX ==> self.Users_view().contains_key(Lower),
            },
    {
        let mut Identifier: u16 = 0;
        while Identifier < u16::MAX
            invariant
                forall|Lower: u16| Lower < Identifier ==> self.Users_view().contains_key(Lower),
            decreases u16::MAX - Identifier,
        {
            if !self.Users.contains_key(&Identifier) {
                return Some(Identifier);
            }
            Identifier = Identifier + 1;
        }
        None
    }

    /// The lowest free group identifier, if any; the last identifier is
    /// never handed out.
    fn Get_new_group_identifier(&self) -> (Result: Option<Group_identifier_type>)
        ensures
            match Result {
                Some(Identifier) => Identifier < u16::MAX && !self.Groups_view().contains_key(
                    Identifier,
                ) && forall|Lower: u16|
                    Lower < Identifier ==> self.Groups_view().contains_key(Lower),
                None => forall|Lower: u16|
                    Lower < u16::MAX ==> self.Groups_view().contains_key(Lower),
            },
    {
        let mut Identifier: u16 = 0;
        while Identifier < u16::MAX
            invariant
                forall|Lower: u16| Lower < Identifier ==> self.Groups_view().contains_key(Lower),
            decreases u16::MAX - Identifier,
        {
            if !self.Groups.contains_key(&Identifier) {
                return Some(Identifier);
            }
            Identifier = Identifier + 1;
        }
        None
    }

    /// Register a user under the lowest free identifier.
    pub fn Create_user(&mut self, Name: &str) -> (Result: Result_type<User_identifier_type>)
        requires
            old(self).Is_consistent(),
        ensures
            final(self).Is_consistent(),
            final(self).Groups_view() == old(self).Groups_view(),
            forall|User: User_identifier_type, Group: Group_identifier_type| #[trigger]
                final(self).Is_member(User, Group) == old(self).Is_member(User, Group),
            match Result {
                Ok(Identifier) => {
                    &&& !old(self).Users_view().contains_key(Identifier)
                    &&& forall|Lower: u16|
                        Lower < Identifier ==> old(self).Users_view().contains_key(Lower)
                    &&& final(self).Users_view() == old(self).Users_view().insert(
                        Identifier,
                        Name@,
                    )
                },
                Err(Error) => {
                    &&& Error == Error_type::Too_many_users
                    &&& final(self).Users_view() == old(self).Users_view()
                    &&& forall|Lower: u16|
                        Lower < u16::MAX ==> old(self).Users_view().contains_key(Lower)
                },
            },
    {
        let Identifier = match self.Get_new_user_identifier() {
            Some(Identifier) => Identifier,
            None => {
                return Err(Error_type::Too_many_users);
            },
        };
        self.Users.insert(Identifier, Name.to_owned());
        proof {
            assert(self.Users_view() =~= old(self).Users_view().insert(Identifier, Name@));
            assert forall|User: User_identifier_type, Group: Group_identifier_type| #[trigger]
                self.Is_member(User, Group) implies self.Groups_view().contains_key(Group) by {
                assert(old(self).Is_member(User, Group));
            }
        }
        Ok(Identifier)
    }

    /// Register a group, either under the given identifier or under the
    /// lowest free one.
    pub fn Create_group(&mut self, Name: &str, Identifier: Option<Group_identifier_type>) -> (Result:
        Result_type<Group_identifier_type>)
        requires
            old(self).Is_consistent(),
        ensures
            final(self).Is_consistent(),
            final(self).Users_view() == old(self).Users_view(),
            forall|User: User_identifier_type, Group: Group_identifier_type| #[trigger]
                final(self).Is_member(User, Group) == old(self).Is_member(User, Group),
            match Result {
                Ok(Chosen) => {
                    &&& !old(self).Groups_view().contains_key(Chosen)
                    &&& (Identifier matches Some(Given) ==> Chosen == Given)
                    &&& (Identifier is None ==> forall|Lower: u16|
                        Lower < Chosen ==> old(self).Groups_view().contains_key(Lower))
                    &&& final(self).Groups_view() == old(self).Groups_view().insert(Chosen, Name@)
                    &&& forall|User: User_identifier_type|
                        !#[trigger] final(self).Is_member(User, Chosen)
                },
                Err(Error) => {
                    &&& final(self).Groups_view() == old(self).Groups_view()
                    &&& (Error == Error_type::Duplicate_group_identifier || Error
                        == Error_type::Too_many_groups)
                    &&& (Error == Error_type::Duplicate_group_identifier <==> (Identifier matches Some(Given)
                        && old(self).Groups_view().contains_key(Given)))
                    &&& (Error == Error_type::Too_many_groups <==> Identifier is None && forall|
                        Lower: u16,
                    |
                        Lower < u16::MAX ==> old(self).Groups_view().contains_key(Lower))
                },
            },
    {
        let Chosen = match Identifier {
            Some(Given) => {
                if self.Groups.contains_key(&Given) {
                    return Err(Error_type::Duplicate_group_identifier);
                }
                Given
            },
            None => {
                match self.Get_new_group_identifier() {
                    Some(Free) => Free,
                    None => {
                        return Err(Error_type::Too_many_groups);
                    },
                }
            },
        };
        self.Groups.insert(Chosen, Name.to_owned());
        proof {
            assert(self.Groups_view() =~= old(self).Groups_view().insert(Chosen, Name@));
            assert forall|User: User_identifier_type, Group: Group_identifier_type| #[trigger]
                self.Is_member(User, Group) implies self.Groups_view().contains_key(Group) by {
                assert(old(self).Is_member(User, Group));
                assert(old(self).Groups_view().contains_key(Group));
            }
            assert forall|User: User_identifier_type| !#[trigger] self.Is_member(User, Chosen) by {
                if self.Is_member(User, Chosen) {
                    assert(old(self).Is_member(User, Chosen));
                    assert(old(self).Groups_view().contains_key(Chosen));
                }
            }
        }
        Ok(Chosen)
    }

    /// Whether the identifier is the root user's.
    pub fn Is_root(Identifier: User_identifier_type) -> (Result: bool)
        ensures
            Result == (Identifier == Root_user_identifier),
    {
        Identifier == Root_user_identifier
    }

    /// Whether the user is a member of the group, which must exist.
    pub fn Is_in_group(
        &self,
        User_identifier: User_identifier_type,
        Group_identifier: Group_identifier_type,
    ) -> (Result: bool)
        requires
            self.Groups_view().contains_key(Group_identifier),
        ensures
            Result == self.Is_member(User_identifier, Group_identifier),
    {
        let Key = (Group_identifier as u32) * 0x10000 + (User_identifier as u32);
        self.Memberships.contains_key(&Key)
    }

    /// Every existing group the user is a member of, in ascending order.
    pub fn Get_user_groups(&self, Identifier: User_identifier_type) -> (Result: Option<
        Vec<Group_identifier_type>,
    >)
        ensures
            ({
                Result matches Some(Groups) && {
                    &&& forall|First: int, Second: int|
                        0 <= First < Second < Groups@.len() ==> Groups@[First] < Groups@[Second]
                    &&& forall|Position: int|
                        0 <= Position < Groups@.len() ==> self.Groups_view().contains_key(
                            #[trigger] Groups@[Position],
                        ) && self.Is_member(Identifier, Groups@[Position])
                    &&& forall|Group: Group_identifier_type|
                        self.Groups_view().contains_key(Group) && #[trigger] self.Is_member(
                            Identifier,
                            Group,
                        ) ==> Groups@.contains(Group)
                }
            }),
    {
        let mut Groups: Vec<Group_identifier_type> = Vec::new();
        let mut Group: u32 = 0;
        while Group < 0x10000
            invariant
                Group <= 0x10000,
                forall|First: int, Second: int|
                    0 <= First < Second < Groups@.len() ==> Groups@[First] < Groups@[Second],
                forall|Position: int|
                    0 <= Position < Groups@.len() ==> (#[trigger] Groups@[Position]) < Group,
                forall|Position: int|
                    0 <= Position < Groups@.len() ==> self.Groups_view().contains_key(
                        #[trigger] Groups@[Position],
                    ) && self.Is_member(Identifier, Groups@[Position]),
                forall|Lower: Group_identifier_type|
                    Lower < Group && self.Groups_view().contains_key(Lower) && #[trigger] self.Is_member(
                        Identifier,
                        Lower,
                    ) ==> Groups@.contains(Lower),
            decreases 0x10000 - Group,
        {
            let Ghost(Previous) = Ghost(Groups@);
            let Current = Group as u16;
            if self.Groups.contains_key(&Current) {
                let Key = (Current as u32) * 0x10000 + (Identifier as u32);
                if self.Memberships.contains_key(&Key) {
                    Groups.push(Current);
                }
            }
            proof {
                assert forall|Lower: Group_identifier_type|
                    Lower < Group + 1 && self.Groups_view().contains_key(Lower)
                        && #[trigger] self.Is_member(Identifier, Lower) implies Groups@.contains(
                    Lower,
                ) by {
                    if Lower < Group {
                        let Position = choose|Position: int|
                            0 <= Position < Previous.len() && Previous[Position] == Lower;
                        assert(Groups@[Position] == Lower);
                    } else {
                        assert(Groups@[Groups@.len() - 1] == Lower);
                    }
                }
            }
            Group = Group + 1;
        }
        Some(Groups)
    }

    /// Whether a group exists under the identifier.
    pub fn Exists_group(&self, Identifier: Group_identifier_type) -> (Result: Result_type<bool>)
        ensures
            Result matches Ok(Found) && Found == self.Groups_view().contains_key(Identifier),
    {
        Ok(self.Groups.contains_key(&Identifier))
    }

    /// Whether a user exists under the identifier.
    pub fn Exists_user(&self, Identifier: User_identifier_type) -> (Result: Result_type<bool>)
        ensures
            Result matches Ok(Found) && Found == self.Users_view().contains_key(Identifier),
    {
        Ok(self.Users.contains_key(&Identifier))
    }

    /// Make the user a member of the group, which must already exist.
    pub fn Add_to_group(
        &mut self,
        User_identifier: User_identifier_type,
        Group_identifier: Group_identifier_type,
    ) -> (Result: Result_type<()>)
        requires
            old(self).Is_consistent(),
        ensures
            final(self).Is_consistent(),
            final(self).Users_view() == old(self).Users_view(),
            final(self).Groups_view() == old(self).Groups_view(),
            match Result {
                Ok(Unit) => {
                    &&& old(self).Groups_view().contains_key(Group_identifier)
                    &&& !old(self).Is_member(User_identifier, Group_identifier)
                    &&& final(self).Is_member(User_identifier, Group_identifier)
                    &&& forall|User: User_identifier_type, Group: Group_identifier_type|
                        (User, Group) != (User_identifier, Group_identifier) ==> #[trigger] final(self).Is_member(User, Group) == old(self).Is_member(User, Group)
                },
                Err(Error) => {
                    &&& forall|User: User_identifier_type, Group: Group_identifier_type| #[trigger]
                        final(self).Is_member(User, Group) == old(self).Is_member(User, Group)
                    &&& (Error == Error_type::Invalid_group_identifier || Error
                        == Error_type::Duplicate_group_identifier)
                    &&& (Error == Error_type::Invalid_group_identifier <==> !old(
                        self,
                    ).Groups_view().contains_key(Group_identifier))
                    &&& (Error == Error_type::Duplicate_group_identifier <==> old(
                        self,
                    ).Groups_view().contains_key(Group_identifier) && old(self).Is_member(
                        User_identifier,
                        Group_identifier,
                    ))
                },
            },
    {
        if !self.Groups.contains_key(&Group_identifier) {
            return Err(Error_type::Invalid_group_identifier);
        }
        let Key = (Group_identifier as u32) * 0x10000 + (User_identifier as u32);
        if self.Memberships.contains_key(&Key) {
            return Err(Error_type::Duplicate_group_identifier);
        }
        self.Memberships.insert(Key, true);
        proof {
            assert(final(self).Is_member(User_identifier, Group_identifier));
            assert forall|User: User_identifier_type, Group: Group_identifier_type|
                (User, Group) != (User_identifier, Group_identifier) implies #[trigger] final(self).Is_member(User, Group) == old(self).Is_member(User, Group) by {
                Lemma_membership_key_injective(Group, User, Group_identifier, User_identifier);
            }
            assert forall|User: User_identifier_type, Group: Group_identifier_type| #[trigger]
                self.Is_member(User, Group) implies self.Groups_view().contains_key(Group) by {
                if (User, Group) != (User_identifier, Group_identifier) {
                    assert(old(self).Is_member(User, Group));
                    assert(old(self).Groups_view().contains_key(Group));
                }
            }
        }
        Ok(())
    }

    /// The name of the group, which must exist.
    pub fn Get_group_name(&self, Identifier: Group_identifier_type) -> (Result: Result_type<String>)
        requires
            self.Groups_view().contains_key(Identifier),
        ensures
            Result matches Ok(Name) && Name@ == self.Groups_view()[Identifier],
    {
        match self.Groups.get(&Identifier) {
            Some(Name) => Ok(Name.clone()),
            None => {
                proof {
                    assert(false);
                }
                Err(Error_type::Invalid_group_identifier)
            },
        }
    }

    /// Every member of the group, in ascending order.
    pub fn Get_group_users(&self, Identifier: Group_identifier_type) -> (Result: Result_type<
        Vec<User_identifier_type>,
    >)
        ensures
            match Result {
                Ok(Users) => {
                    &&& self.Groups_view().contains_key(Identifier)
                    &&& forall|First: int, Second: int|
                        0 <= First < Second < Users@.len() ==> Users@[First] < Users@[Second]
                    &&& forall|Position: int|
                        0 <= Position < Users@.len() ==> self.Is_member(
                            #[trigger] Users@[Position],
                            Identifier,
                        )
                    &&& forall|User: User_identifier_type| #[trigger]
                        self.Is_member(User, Identifier) ==> Users@.contains(User)
                },
                Err(Error) => {
                    &&& Error == Error_type::Invalid_group_identifier
                    &&& !self.Groups_view().contains_key(Identifier)
                },
            },
    {
        if !self.Groups.contains_key(&Identifier) {
            return Err(Error_type::Invalid_group_identifier);
        }
        let mut Users: Vec<User_identifier_type> = Vec::new();
        let mut User: u32 = 0;
        while User < 0x10000
            invariant
                User <= 0x10000,
                forall|First: int, Second: int|
                    0 <= First < Second < Users@.len() ==> Users@[First] < Users@[Second],
                forall|Position: int|
                    0 <= Position < Users@.len() ==> (#[trigger] Users@[Position]) < User,
                forall|Position: int|
                    0 <= Position < Users@.len() ==> self.Is_member(
                        #[trigger] Users@[Position],
                        Identifier,
                    ),
                forall|Lower: User_identifier_type|
                    Lower < User && #[trigger] self.Is_member(Lower, Identifier) ==> Users@.contains(
                        Lower,
                    ),
            decreases 0x10000 - User,
        {
            let Ghost(Previous) = Ghost(Users@);
            let Current = User as u16;
            let Key = (Identifier as u32) * 0x10000 + (Current as u32);
            if self.Memberships.contains_key(&Key) {
                Users.push(Current);
            }
            proof {
                assert forall|Lower: User_identifier_type|
                    Lower < User + 1 && #[trigger] self.Is_member(Lower, Identifier) implies Users@.contains(
                    Lower,
                ) by {
                    if Lower < User {
                        let Position = choose|Position: int|
                            0 <= Position < Previous.len() && Previous[Position] == Lower;
                        assert(Users@[Position] == Lower);
                    } else {
                        assert(Users@[Users@.len() - 1] == Lower);
                    }
                }
            }
            User = User + 1;
        }
        Ok(Users)
    }

    /// The name of the user, if one exists under the identifier.
    pub fn Get_user_name(&self, Identifier: User_identifier_type) -> (Result: Result_type<String>)
        ensures
            match Result {
                Ok(Name) => self.Users_view().contains_key(Identifier) && Name@
                    == self.Users_view()[Identifier],
                Err(Error) => Error == Error_type::Invalid_user_identifier && !self.Users_view().contains_key(
                    Identifier,
                ),
            },
    {
        match self.Users.get(&Identifier) {
            Some(Name) => Ok(Name.clone()),
            None => Err(Error_type::Invalid_user_identifier),
        }
    }

    /// Accept any name and password: the permission store is a stub that
    /// grants everything.
    pub fn Check_credentials(&self, _User_name: &str, _Password: &str) -> (Result: bool)
        ensures
            Result,
    {
        true
    }
}

} // verus!
