//! User inputs: updating a user, the additional data of a new user, password
//! changes and user search.
use vstd::prelude::*;

verus! {

/// Gender of a user.
#[derive(Debug, Clone, Copy, PartialEq, Eq, Structural)]
pub enum Gender {
    /// Male.
    Male,
    /// Female.
    Female,
    /// Not given.
    Undefined,
}

/// A marketing utm key-value pair, as a service answers it.
#[derive(Debug, Clone)]
pub struct UtmMark {
    /// Key.
    pub key: String,
    /// Value.
    pub value: String,
}

/// Single utm key-value pair, as a client gives it.
#[derive(Debug, Clone)]
pub struct UtmMarkInput {
    /// Key.
    pub key: String,
    /// Value.
    pub value: String,
}

/// Update user input object.
#[derive(Debug, Clone, PartialEq)]
pub struct UpdateUserInput {
    /// Client mutation id.
    pub client_mutation_id: String,
    /// Id of a user.
    pub id: String,
    /// Activate/deactivate user.
    pub is_active: Option<bool>,
    /// New phone of a user
    pub phone: Option<String>,
    /// New first name of a user
    pub first_name: Option<String>,
    /// New last name of a user
    pub last_name: Option<String>,
    /// New middle name of a user
    pub middle_name: Option<String>,
    /// Gender of a user
    pub gender: Option<Gender>,
    /// Birthdate of a user
    pub birthdate: Option<String>,
    /// Avatar link of a user
    pub avatar: Option<String>,
}

/// `chrono::NaiveDate::parse_from_str(s, fmt).is_ok()`: whether `s` is a
/// date written as the format `fmt` says.
pub uninterp spec fn naive_date_parses(s: Seq<char>, fmt: Seq<char>) -> bool;

/// `chrono::NaiveDate::parse_from_str`; the contract claims only that
/// whether it succeeds is a function of the string and the format,
/// `naive_date_parses`. Which dates it accepts is left unsaid.
#[verifier::external_body]
fn naive_date_parse_ok(s: &str, fmt: &str) -> (ok: bool)
    ensures
        ok == naive_date_parses(s@, fmt@),
{
    chrono::NaiveDate::parse_from_str(s, fmt).is_ok()
}

/// The format that a birthdate is written in: `%Y-%m-%d`.
pub open spec fn birthdate_format() -> Seq<char> {
    seq!['%', 'Y', '-', '%', 'm', '-', '%', 'd']
}

/// Why a user input is refused.
#[derive(Debug, Clone, Copy, PartialEq, Eq, Structural)]
pub enum UserInputError {
    /// The birthdate is not a date written as `%Y-%m-%d`.
    IncorrectBirthdateFormat,
}

impl UpdateUserInput {
    /// The same input with nothing to update: only the mutation id and the
    /// user id kept.
    pub open spec fn without_changes(self) -> UpdateUserInput {
        UpdateUserInput {
            client_mutation_id: self.client_mutation_id,
            id: self.id,
            is_active: None,
            phone: None,
            first_name: None,
            last_name: None,
            middle_name: None,
            gender: None,
            birthdate: None,
            avatar: None,
        }
    }

    /// Whether no field to update is given.
    pub open spec fn has_no_changes(self) -> bool {
        &&& self.is_active is None
        &&& self.phone is None
        &&& self.first_name is None
        &&& self.last_name is None
        &&& self.middle_name is None
        &&& self.gender is None
        &&& self.birthdate is None
        &&& self.avatar is None
    }

    /// Whether all fields to update are absent.
    pub fn is_none(&self) -> (r: bool)
        ensures
            r == self.has_no_changes(),
            r == (*self == self.without_changes()),
    {
        self.is_active.is_none() && self.phone.is_none() && self.first_name.is_none()
            && self.last_name.is_none() && self.middle_name.is_none() && self.gender.is_none()
            && self.birthdate.is_none() && self.avatar.is_none()
    }

    /// The outcome of validation, given whether a birthdate was given and,
    /// if so, whether it parsed as a date.
    pub fn validation_outcome(birthdate_parsed: Option<bool>) -> (r: Result<(), UserInputError>)
        ensures
            r is Ok <==> (birthdate_parsed is None || birthdate_parsed == Some(true)),
            r is Err ==> r == Err::<(), UserInputError>(UserInputError::IncorrectBirthdateFormat),
    {
        match birthdate_parsed {
            Some(false) => Err(UserInputError::IncorrectBirthdateFormat),
            _ => Ok(()),
        }
    }

    /// Checks the input: a birthdate, where one is given, must be a date
    /// written as `%Y-%m-%d`.
    pub fn validate(&self) -> (r: Result<(), UserInputError>)
        ensures
            r is Ok <==> match self.birthdate {
                None => true,
                Some(b) => naive_date_parses(b@, birthdate_format()),
            },
            r is Err ==> r == Err::<(), UserInputError>(UserInputError::IncorrectBirthdateFormat),
    {
        proof {
            reveal_strlit("%Y-%m-%d");
            assert("%Y-%m-%d"@ =~= birthdate_format());
        }
        let parsed: Option<bool> = match &self.birthdate {
            None => None,
            Some(b) => Some(naive_date_parse_ok(b.as_str(), "%Y-%m-%d")),
        };
        Self::validation_outcome(parsed)
    }
}

/// Additional for user creation input object.
#[derive(Debug, Clone)]
pub struct NewUserAdditionalDataInput {
    /// Raw user id who advertised the project.
    pub referal: Option<i32>,
    /// Collection of marketing utm marks.
    pub utm_marks: Option<Vec<UtmMarkInput>>,
    /// Alpha 3 country code of a user.
    pub country: Option<String>,
    /// Referer application domain.
    pub referer: Option<String>,
}

/// Additional data of a new user, as it is sent to the users service.
///
/// The utm marks form a map from key to value: no two of them share a key.
#[derive(Debug, Clone)]
pub struct NewUserAdditionalData {
    /// Raw user id who advertised the project.
    pub referal: Option<i32>,
    /// Marketing utm marks, each key once.
    pub utm_marks: Option<Vec<UtmMark>>,
    /// Country code of a user.
    pub country: Option<String>,
    /// Referer application domain.
    pub referer: Option<String>,
}

impl NewUserAdditionalData {
    /// The marks, where present, form a map: no two share a key.
    pub open spec fn well_formed(self) -> bool {
        self.utm_marks matches Some(v) ==> keys_distinct(mark_pairs(v@))
    }
}

/// The key and value of each mark given.
pub open spec fn input_pairs(marks: Seq<UtmMarkInput>) -> Seq<(Seq<char>, Seq<char>)> {
    marks.map_values(|m: UtmMarkInput| (m.key@, m.value@))
}

/// The key and value of each mark kept.
pub open spec fn mark_pairs(marks: Seq<UtmMark>) -> Seq<(Seq<char>, Seq<char>)> {
    marks.map_values(|m: UtmMark| (m.key@, m.value@))
}

/// The map that a run of key-value pairs amounts to: a later pair with a
/// key already seen replaces its value.
pub open spec fn pairs_map(pairs: Seq<(Seq<char>, Seq<char>)>) -> Map<Seq<char>, Seq<char>>
    decreases pairs.len(),
{
    if pairs.len() == 0 {
        Map::empty()
    } else {
        pairs_map(pairs.drop_last()).insert(pairs.last().0, pairs.last().1)
    }
}

/// No two pairs share a key.
pub open spec fn keys_distinct(pairs: Seq<(Seq<char>, Seq<char>)>) -> bool {
    forall|i: int, j: int| 0 <= i < j < pairs.len() ==> pairs[i].0 != pairs[j].0
}

/// The marks given, in order (none where the collection is absent).
pub open spec fn given_marks(input: NewUserAdditionalDataInput) -> Seq<UtmMarkInput> {
    match input.utm_marks {
        Some(v) => v@,
        None => Seq::empty(),
    }
}

/// Replacing the value of a pair, where keys are distinct, replaces it in
/// the map.
proof fn lemma_pairs_map_update(pairs: Seq<(Seq<char>, Seq<char>)>, j: int, v: Seq<char>)
    requires
        keys_distinct(pairs),
        0 <= j < pairs.len(),
    ensures
        pairs_map(pairs.update(j, (pairs[j].0, v))) == pairs_map(pairs).insert(pairs[j].0, v),
    decreases pairs.len(),
{
    let k = pairs[j].0;
    let upd = pairs.update(j, (k, v));
    let n = pairs.len() as int;
    if j == n - 1 {
        assert(upd.drop_last() =~= pairs.drop_last());
        assert(pairs_map(upd) =~= pairs_map(pairs).insert(k, v));
    } else {
        assert(upd.drop_last() =~= pairs.drop_last().update(j, (k, v)));
        lemma_pairs_map_update(pairs.drop_last(), j, v);
        assert(pairs.last().0 != k);
        assert(pairs_map(upd) =~= pairs_map(pairs).insert(k, v));
    }
}

/// A non-empty run of pairs amounts to a non-empty map.
proof fn lemma_pairs_map_nonempty(pairs: Seq<(Seq<char>, Seq<char>)>)
    requires
        pairs.len() > 0,
    ensures
        pairs_map(pairs).dom().contains(pairs.last().0),
{
}

impl NewUserAdditionalDataInput {
    /// The additional data sent for this input: the utm marks become a map
    /// from key to value (a later mark replaces an earlier one with the same
    /// key), absent where no mark is given.
    pub fn into(self) -> (r: NewUserAdditionalData)
        ensures
            r.referal == self.referal,
            r.country == self.country,
            r.referer == self.referer,
            r.well_formed(),
            r.utm_marks is None <==> given_marks(self).len() == 0,
            r.utm_marks matches Some(v) ==> keys_distinct(mark_pairs(v@)) && pairs_map(
                mark_pairs(v@),
            ) == pairs_map(input_pairs(given_marks(self))),
    {
        let ghost given = input_pairs(given_marks(self));
        let marks: Vec<UtmMarkInput> = match self.utm_marks {
            Some(v) => v,
            None => Vec::new(),
        };
        assert(input_pairs(marks@) == given);
        let mut out: Vec<UtmMark> = Vec::new();
        let mut i: usize = 0;
        while i < marks.len()
            invariant
                0 <= i <= marks@.len(),
                input_pairs(marks@) == given,
                keys_distinct(mark_pairs(out@)),
                pairs_map(mark_pairs(out@)) == pairs_map(given.take(i as int)),
                i > 0 ==> out@.len() > 0,
                out@.len() <= i,
            decreases marks@.len() - i,
        {
            let key: String = marks[i].key.clone();
            let value: String = marks[i].value.clone();
            assert(given.take(i + 1).drop_last() =~= given.take(i as int));
            assert(given.take(i + 1).last() == (key@, value@));
            let mut found: Option<usize> = None;
            let mut j: usize = 0;
            while j < out.len() && found.is_none()
                invariant
                    0 <= j <= out@.len(),
                    found matches Some(f) ==> f < out@.len() && out@[f as int].key@ == key@,
                    found is None ==> forall|t: int| 0 <= t < j ==> out@[t].key@ != key@,
                decreases out@.len() - j + (if found is None { 1int } else { 0int }),
            {
                if out[j].key == key {
                    found = Some(j);
                } else {
                    j = j + 1;
                }
            }
            let ghost before = mark_pairs(out@);
            let ghost old_out = out@;
            match found {
                Some(f) => {
                    proof {
                        lemma_pairs_map_update(before, f as int, value@);
                    }
                    out.set(f, UtmMark { key, value });
                    assert(mark_pairs(out@) =~= before.update(f as int, (before[f as int].0, value@)));
                },
                None => {
                    out.push(UtmMark { key, value });
                    assert(mark_pairs(out@).drop_last() =~= before);
                    assert forall|a: int, b: int|
                        0 <= a < b < mark_pairs(out@).len() implies mark_pairs(out@)[a].0
                        != mark_pairs(out@)[b].0 by {
                        if b == out@.len() - 1 {
                            assert(old_out[a].key@ != key@);
                        } else {
                            assert(before[a].0 != before[b].0);
                        }
                    }
                },
            }
            i = i + 1;
        }
        assert(given.take(marks@.len() as int) =~= given);
        let utm_marks: Option<Vec<UtmMark>> = if out.len() == 0 {
            proof {
                if given.len() > 0 {
                    lemma_pairs_map_nonempty(given);
                    assert(mark_pairs(out@) =~= Seq::<(Seq<char>, Seq<char>)>::empty());
                    assert(pairs_map(mark_pairs(out@)) == Map::<Seq<char>, Seq<char>>::empty());
                    assert(pairs_map(mark_pairs(out@)).dom().contains(given.last().0));
                }
            }
            None
        } else {
            Some(out)
        };
        NewUserAdditionalData {
            referal: self.referal,
            utm_marks,
            country: self.country,
            referer: self.referer,
        }
    }
}

impl NewUserAdditionalData {
    /// Replaces the country, where one is given, by the code found for it
    /// (`found` is what the lookup of the given country gave, and is not
    /// read where no country is given); a country that was not found is
    /// dropped.
    pub fn replace_country(&mut self, found: Option<String>)
        ensures
            old(self).well_formed() ==> final(self).well_formed(),
            final(self).referal == old(self).referal,
            final(self).utm_marks == old(self).utm_marks,
            final(self).referer == old(self).referer,
            final(self).country == (if old(self).country is Some {
                found
            } else {
                None
            }),
    {
        if self.country.is_some() {
            self.country = found;
        }
    }
}

/// Change user password input object.
#[derive(Debug, Clone)]
pub struct ChangePasswordInput {
    /// Client mutation id.
    pub client_mutation_id: String,
    /// Previous password of a user.
    pub old_password: String,
    /// New password of a user.
    pub new_password: String,
}

/// Deactivate user input object.
#[derive(Debug, Clone)]
pub struct DeactivateUserInput {
    /// Client mutation id.
    pub client_mutation_id: String,
    /// id of a user.
    pub id: String,
}

/// Search user input object.
#[derive(Debug)]
pub struct SearchUserInput {
    /// Email of a user.
    pub email: Option<String>,
    /// Phone of a user.
    pub phone: Option<String>,
    /// first name of a user.
    pub first_name: Option<String>,
    /// last name of a user.
    pub last_name: Option<String>,
    /// Blocked status of a user.
    pub is_blocked: Option<bool>,
}

} // verus!
