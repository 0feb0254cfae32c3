use kanau::message::{DeserializeError, MessageDe, MessageSer};
use rkyv::rancor;

#[derive(Debug, PartialEq, Clone)]
struct ExampleUser {
    user_id: u64,
    username: String,
    email: Option<String>,
    user_age: u8,
    is_active: bool,
}

type Fields = (u64, String, Option<String>, u8, bool);

impl MessageDe for ExampleUser {
    type DeError = rancor::Error;

    fn from_bytes(bytes: &[u8]) -> Result<Self, Self::DeError> {
        let mut aligned = rkyv::util::AlignedVec::<16>::new();
        aligned.extend_from_slice(bytes);
        let f = rkyv::from_bytes::<Fields, rancor::Error>(&aligned)?;
        Ok(ExampleUser { user_id: f.0, username: f.1, email: f.2, user_age: f.3, is_active: f.4 })
    }
}

impl MessageSer for ExampleUser {
    type SerError = rancor::Error;

    fn to_bytes(self) -> Result<Box<[u8]>, Self::SerError> {
        let fields: Fields = (self.user_id, self.username, self.email, self.user_age, self.is_active);
        let bytes = rkyv::to_bytes::<rancor::Error>(&fields)?;
        Ok(bytes.into_boxed_slice())
    }
}

fn john() -> ExampleUser {
    ExampleUser {
        user_id: 1,
        username: "John".to_string(),
        email: Some("john@example.com".to_string()),
        user_age: 30,
        is_active: true,
    }
}

#[test]
fn rkyv_macro_test_rkyv_message() {
    let user = john();
    let user_clone = user.clone();

    let bytes = user.to_bytes().unwrap();
    let user2 = ExampleUser::from_bytes(&bytes).unwrap();

    assert_eq!(user_clone, user2);
}

#[test]
fn rkyv_macro_inner_test_rkyv_message() {
    let user = john();
    let user_clone = user.clone();

    let bytes = user.to_bytes().unwrap();
    let user2 = ExampleUser::from_bytes(&bytes).unwrap();

    assert_eq!(user_clone, user2);
}

#[test]
fn rkyv_garbage_becomes_deserialize_error() {
    let err = ExampleUser::from_bytes(&[1u8, 2, 3]).unwrap_err();
    let unified = DeserializeError::from(err);
    assert!(format!("{}", unified.0).len() > 0);
}
