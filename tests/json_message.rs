use kanau::message::{DeserializeError, MessageDe, MessageSer, SerializeError};

#[derive(Debug, PartialEq, Clone)]
struct ExampleUser {
    pub user_id: u64,
    pub username: String,
    pub email: Option<String>,
    pub user_age: u8,
    pub is_active: bool,
}

type Fields = (u64, String, Option<String>, u8, bool);

impl MessageDe for ExampleUser {
    type DeError = serde_json::Error;

    fn from_bytes(bytes: &[u8]) -> Result<Self, Self::DeError> {
        serde_json::from_slice::<Fields>(bytes).map(|f| ExampleUser {
            user_id: f.0,
            username: f.1,
            email: f.2,
            user_age: f.3,
            is_active: f.4,
        })
    }
}

impl MessageSer for ExampleUser {
    type SerError = serde_json::Error;

    fn to_bytes(self) -> Result<Box<[u8]>, Self::SerError> {
        let fields: Fields = (self.user_id, self.username, self.email, self.user_age, self.is_active);
        serde_json::to_vec(&fields).map(|v| v.into_boxed_slice())
    }
}

#[test]
fn test_json_message() {
    let user = ExampleUser {
        user_id: 1,
        username: "John".to_string(),
        email: Some("john@example.com".to_string()),
        user_age: 30,
        is_active: true,
    };

    let user_clone = user.clone();

    let bytes = user.to_bytes().unwrap();
    let user2 = ExampleUser::from_bytes(&bytes).unwrap();

    assert_eq!(user_clone, user2);
}

#[test]
fn json_round_trip_without_email() {
    let user = ExampleUser {
        user_id: u64::MAX,
        username: String::new(),
        email: None,
        user_age: 0,
        is_active: false,
    };
    let bytes = user.clone().to_bytes().unwrap();
    assert_eq!(ExampleUser::from_bytes(&bytes).unwrap(), user);
}

#[test]
fn json_malformed_input_becomes_deserialize_error() {
    let err = ExampleUser::from_bytes(b"[1, ").unwrap_err();
    let unified: DeserializeError = err.into();
    assert!(format!("{}", unified.0).contains("EOF"));
}

#[test]
fn json_error_converts_to_serialize_error() {
    let err = serde_json::from_slice::<u8>(b"300").unwrap_err();
    let unified: SerializeError = err.into();
    assert!(format!("{}", unified.0).len() > 0);
}

#[test]
fn anyhow_error_is_kept_as_cause() {
    let se = SerializeError::from(anyhow::Error::msg("disk full"));
    assert_eq!(format!("{}", se.0), "disk full");
    let de = DeserializeError::from(anyhow::Error::msg("bad frame"));
    assert_eq!(format!("{}", de.0), "bad frame");
}
