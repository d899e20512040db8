use std::collections::HashMap;

use card_game::commands::CommandManager;
use card_game::context::{ActionInfo, HistoricalContext};
use card_game::identifications::MutID;
use card_game::validation::{
    ActionID, CollectedInputs, Condition, ConditionError, Expects, StateFilter, StateFilterInput,
    ValidAction, Validator,
};

#[derive(Hash, PartialEq, Eq, Clone, Copy, Debug)]
struct UserID(usize);
impl StateFilterInput for UserID {}

#[derive(Default)]
struct UserStorage {
    maps: HashMap<UserID, User>,
}

#[derive(Clone, Debug)]
struct User {
    id: UserID,
    username: String,
}
impl StateFilterInput for User {}

struct AdminUser(User);
impl StateFilterInput for AdminUser {}

struct UserExists;
#[derive(Debug, PartialEq)]
struct UserDoesNotExistError;

impl StateFilter<UserStorage, UserID> for UserExists {
    type ValidOutput = User;
    type Error = UserDoesNotExistError;
    fn filter_spec(state: UserStorage, user_id: UserID) -> Result<User, UserDoesNotExistError> {
        Self::filter(&state, user_id)
    }
    fn filter(state: &UserStorage, user_id: UserID) -> Result<User, UserDoesNotExistError> {
        if let Some(user) = state.maps.get(&user_id) {
            Ok(user.clone())
        } else {
            Err(UserDoesNotExistError)
        }
    }
}

struct UserIsAdmin;
#[derive(Debug, PartialEq)]
struct UserIsNotAdminError;

impl StateFilter<UserStorage, User> for UserIsAdmin {
    type ValidOutput = AdminUser;
    type Error = UserIsNotAdminError;
    fn filter_spec(state: UserStorage, user: User) -> Result<AdminUser, UserIsNotAdminError> {
        Self::filter(&state, user)
    }
    fn filter(_state: &UserStorage, user: User) -> Result<AdminUser, UserIsNotAdminError> {
        if user.username == "ADMIN" {
            Ok(AdminUser(user))
        } else {
            Err(UserIsNotAdminError)
        }
    }
}

struct RemoveAdmin;

impl ValidAction<UserStorage, UserID> for RemoveAdmin {
    type Filter = (Condition<UserID, UserExists>, Condition<User, UserIsAdmin>);
    type Output = UserStorage;
    fn with_valid_input_requires(&self, state: UserStorage, admin_user: AdminUser) -> bool {
        state.maps.contains_key(&admin_user.0.id)
    }
    fn with_valid_input_ensures(&self, _state: UserStorage, _admin_user: AdminUser, _output: UserStorage) -> bool {
        true
    }
    fn with_valid_input(self, mut state: UserStorage, admin_user: AdminUser) -> UserStorage {
        let _ = state.maps.remove(&admin_user.0.id).unwrap();
        state
    }
    fn action_id() -> ActionID {
        ActionID::new("remove_admin")
    }
}

fn storage(users: &[(usize, &str)]) -> UserStorage {
    let mut user_storage = UserStorage::default();
    for (id, name) in users {
        user_storage.maps.insert(UserID(*id), User { id: UserID(*id), username: name.to_string() });
    }
    user_storage
}

#[test]
fn an_admin_is_removed() {
    let user_storage = storage(&[(0, "ADMIN")]);
    let validator = match Validator::<UserStorage, UserID, (Condition<UserID, UserExists>, Condition<User, UserIsAdmin>)>::try_new(user_storage, UserID(0)) {
        Ok(validator) => validator,
        Err(_) => panic!("admin user did not exist"),
    };
    assert_eq!(validator.valid_output().0.username, "ADMIN");
    let user_storage = validator.execute(RemoveAdmin);
    assert!(user_storage.maps.is_empty());
}

#[test]
fn the_first_condition_refuses_a_missing_user() {
    let user_storage = storage(&[(0, "ADMIN")]);
    match Validator::<UserStorage, UserID, (Condition<UserID, UserExists>, Condition<User, UserIsAdmin>)>::try_new(user_storage, UserID(1)) {
        Ok(_) => panic!("the user does not exist"),
        Err(error) => assert!(matches!(error, ConditionError::First(UserDoesNotExistError))),
    }
}

#[test]
fn the_second_condition_refuses_a_plain_user() {
    let user_storage = storage(&[(0, "ADMIN"), (1, "bob")]);
    match Validator::<UserStorage, UserID, (Condition<UserID, UserExists>, Condition<User, UserIsAdmin>)>::try_new(user_storage, UserID(1)) {
        Ok(_) => panic!("the user is not an admin"),
        Err(error) => assert!(matches!(error, ConditionError::Second(UserIsNotAdminError))),
    }
}

#[test]
fn all_and_any_of_the_inputs() {
    let user_storage = storage(&[(0, "ADMIN")]);
    let both = vec![UserID(0), UserID(1)];
    assert!(!CollectedInputs::<UserStorage, UserID>::new(both.clone()).fits_all::<UserExists>(&user_storage));
    assert!(CollectedInputs::<UserStorage, UserID>::new(both).fits_any::<UserExists>(&user_storage));
    assert!(CollectedInputs::<UserStorage, UserID>::new(vec![UserID(0)]).fits_all::<UserExists>(&user_storage));
    assert!(CollectedInputs::<UserStorage, UserID>::new(Vec::new()).fits_all::<UserExists>(&user_storage));
    assert!(!CollectedInputs::<UserStorage, UserID>::new(Vec::new()).fits_any::<UserExists>(&user_storage));
}

#[test]
fn expected_values_are_taken_out_together() {
    assert_eq!(Expects::<(u8,)>::from(5).take(), 5);
    assert_eq!(Expects::<(u8, char)>::from((1u8, 'a')).take(), (1, 'a'));
    assert_eq!(Expects::<(u8, u8, u8)>::from((1u8, 2u8, 3u8)).take(), (1, 2, 3));
    assert_eq!(Expects::<(u8, u8, u8, u8)>::from((1u8, 2u8, 3u8, 4u8)).take(), (1, 2, 3, 4));
    assert_eq!(Expects::<(u8, u8, u8, u8, u8)>::from((1u8, 2u8, 3u8, 4u8, 5u8)).take(), (1, 2, 3, 4, 5));
}

struct Amount(i32);
impl StateFilterInput for Amount {}

struct Positive;
#[derive(Debug)]
struct NotPositive;

impl StateFilter<u32, Amount> for Positive {
    type ValidOutput = u32;
    type Error = NotPositive;
    fn filter_spec(state: u32, amount: Amount) -> Result<u32, NotPositive> {
        Self::filter(&state, amount)
    }
    fn filter(_state: &u32, amount: Amount) -> Result<u32, NotPositive> {
        if amount.0 > 0 {
            Ok(amount.0 as u32)
        } else {
            Err(NotPositive)
        }
    }
}

struct Add;

impl ValidAction<u32, Amount> for Add {
    type Filter = Positive;
    type Output = u32;
    fn with_valid_input_requires(&self, state: u32, valid: u32) -> bool {
        state.checked_add(valid).is_some()
    }
    fn with_valid_input_ensures(&self, state: u32, valid: u32, output: u32) -> bool {
        output == state + valid
    }
    fn with_valid_input(self, state: u32, valid: u32) -> u32 {
        state + valid
    }
    fn action_id() -> ActionID {
        ActionID::new("add")
    }
}

impl ActionInfo<u32, u32, String> for Add {
    fn info(&self, state: &u32, input: &u32) -> String {
        format!("{} + {}", state, input)
    }
}

#[test]
fn a_context_runs_an_action_on_a_checked_input() {
    let context = HistoricalContext::new(Vec::<String>::new(), 5u32);
    let valid = match context.validate::<Amount, Positive>(Amount(3)) {
        Ok(valid) => valid,
        Err(_) => panic!("three is positive"),
    };
    let context = valid.action(Add);
    assert!(context.validate::<Amount, Positive>(Amount(-1)).is_err());
}

struct AddToState;

impl StateFilter<u32, MutID<u8>> for AddToState {
    type ValidOutput = u32;
    type Error = NotPositive;
    fn filter_spec(state: u32, id: MutID<u8>) -> Result<u32, NotPositive> {
        Self::filter(&state, id)
    }
    fn filter(_state: &u32, id: MutID<u8>) -> Result<u32, NotPositive> {
        let value = id.take_id();
        if value > 0 {
            Ok(value as u32)
        } else {
            Err(NotPositive)
        }
    }
}

struct AddID;

impl ValidAction<u32, MutID<u8>> for AddID {
    type Filter = AddToState;
    type Output = u32;
    fn with_valid_input_requires(&self, state: u32, valid: u32) -> bool {
        state.checked_add(valid).is_some()
    }
    fn with_valid_input_ensures(&self, state: u32, valid: u32, output: u32) -> bool {
        output == state + valid
    }
    fn with_valid_input(self, state: u32, valid: u32) -> u32 {
        state + valid
    }
    fn action_id() -> ActionID {
        ActionID::new("add_id")
    }
}

impl ActionInfo<u32, u32, String> for AddID {
    fn info(&self, state: &u32, input: &u32) -> String {
        format!("{} + {}", state, input)
    }
}

#[test]
fn a_command_records_before_it_runs() {
    let mut history: Vec<String> = Vec::new();
    let command = match CommandManager::new(4u8).with_history(&mut history).validate::<u32, AddToState>(10) {
        Ok(command) => command,
        Err(_) => panic!("four is positive"),
    };
    assert_eq!(command.execute(AddID), 14);
    assert_eq!(history, vec!["10 + 4".to_string()]);
    let refused = CommandManager::new(0u8).with_history(&mut history).validate::<u32, AddToState>(10);
    assert!(refused.is_err());
    assert_eq!(history.len(), 1);
}

#[test]
fn a_command_can_build_its_own_input() {
    let mut history: Vec<String> = Vec::new();
    let command = match CommandManager::new(2u8)
        .with_history(&mut history)
        .validate_with_input::<u32, Amount, Positive>(1, |id| Amount(i32::from(id.take_id()) * 3))
    {
        Ok(command) => command,
        Err(_) => panic!("six is positive"),
    };
    assert_eq!(command.execute(Add), 7);
    assert_eq!(history, vec!["1 + 6".to_string()]);
}

struct FirstAdmins;
#[derive(Debug, PartialEq)]
struct LateAdminError;

impl StateFilter<UserStorage, AdminUser> for FirstAdmins {
    type ValidOutput = AdminUser;
    type Error = LateAdminError;
    fn filter_spec(state: UserStorage, admin: AdminUser) -> Result<AdminUser, LateAdminError> {
        Self::filter(&state, admin)
    }
    fn filter(_state: &UserStorage, admin: AdminUser) -> Result<AdminUser, LateAdminError> {
        if admin.0.id.0 < 2 {
            Ok(admin)
        } else {
            Err(LateAdminError)
        }
    }
}

type ThreeConditions = (
    Condition<UserID, UserExists>,
    Condition<User, UserIsAdmin>,
    Condition<AdminUser, FirstAdmins>,
);

#[test]
fn three_conditions_in_a_row() {
    let passed = Validator::<UserStorage, UserID, ThreeConditions>::try_new(storage(&[(0, "ADMIN")]), UserID(0));
    assert!(passed.is_ok());
    match Validator::<UserStorage, UserID, ThreeConditions>::try_new(storage(&[(0, "ADMIN")]), UserID(3)) {
        Ok(_) => panic!("the user does not exist"),
        Err(error) => assert!(matches!(error, ConditionError::First(UserDoesNotExistError))),
    }
    match Validator::<UserStorage, UserID, ThreeConditions>::try_new(storage(&[(0, "carol")]), UserID(0)) {
        Ok(_) => panic!("the user is not an admin"),
        Err(error) => assert!(matches!(error, ConditionError::Second(ConditionError::First(UserIsNotAdminError)))),
    }
    match Validator::<UserStorage, UserID, ThreeConditions>::try_new(storage(&[(5, "ADMIN")]), UserID(5)) {
        Ok(_) => panic!("the admin came too late"),
        Err(error) => assert!(matches!(error, ConditionError::Second(ConditionError::Second(LateAdminError)))),
    }
}

#[derive(Debug, PartialEq)]
struct Count(u32);
impl StateFilterInput for Count {}

struct Step;
#[derive(Debug, PartialEq)]
struct LimitReached(u32);

impl StateFilter<u32, Count> for Step {
    type ValidOutput = Count;
    type Error = LimitReached;
    fn filter_spec(state: u32, value: Count) -> Result<Count, LimitReached> {
        Self::filter(&state, value)
    }
    fn filter(limit: &u32, value: Count) -> Result<Count, LimitReached> {
        if value.0 < *limit {
            Ok(Count(value.0 + 1))
        } else {
            Err(LimitReached(value.0))
        }
    }
}

type FourSteps = (Condition<Count, Step>, Condition<Count, Step>, Condition<Count, Step>, Condition<Count, Step>);
type EightSteps = (
    Condition<Count, Step>,
    Condition<Count, Step>,
    Condition<Count, Step>,
    Condition<Count, Step>,
    Condition<Count, Step>,
    Condition<Count, Step>,
    Condition<Count, Step>,
    Condition<Count, Step>,
);

#[test]
fn four_conditions_pass_in_turn() {
    match <FourSteps as StateFilter<u32, Count>>::filter(&10, Count(0)) {
        Ok(count) => assert_eq!(count, Count(4)),
        Err(_) => panic!("every condition passes"),
    }
}

#[test]
fn four_conditions_name_the_one_that_refused() {
    match <FourSteps as StateFilter<u32, Count>>::filter(&2, Count(0)) {
        Err(ConditionError::Second(ConditionError::Second(ConditionError::First(LimitReached(2))))) => {},
        _ => panic!("the third condition refuses"),
    }
    match <FourSteps as StateFilter<u32, Count>>::filter(&3, Count(0)) {
        Err(ConditionError::Second(ConditionError::Second(ConditionError::Second(LimitReached(3))))) => {},
        _ => panic!("the last condition refuses"),
    }
}

#[test]
fn eight_conditions_pass_in_turn_or_name_the_refusal() {
    match <EightSteps as StateFilter<u32, Count>>::filter(&8, Count(0)) {
        Ok(count) => assert_eq!(count, Count(8)),
        Err(_) => panic!("every condition passes"),
    }
    match <EightSteps as StateFilter<u32, Count>>::filter(&0, Count(0)) {
        Err(ConditionError::First(LimitReached(0))) => {},
        _ => panic!("the first condition refuses"),
    }
}
