use user_service::domain::{NewUser, User, UserId, ValidationError};
use user_service::memory::OnMemoryRepository;
use user_service::repository::{CreateError, UserRepository};
use user_service::usecase::CreateUser;

#[test]
fn validate_rejects_empty_name_only() {
    let empty = NewUser { name: "".to_string(), age: 0 };
    match empty.validate() {
        Err(e) => assert_eq!(e.field(), "name"),
        Ok(()) => panic!("an empty name must fail validation"),
    }

    let one = NewUser { name: "a".to_string(), age: 0 };
    assert!(one.validate().is_ok());

    let max_age = NewUser { name: "b".to_string(), age: u32::MAX };
    assert!(max_age.validate().is_ok());

    let empty_any_age = NewUser { name: "".to_string(), age: u32::MAX };
    assert!(empty_any_age.validate().is_err());
}

#[test]
fn validate_user_record() {
    let user = User { id: UserId(0), name: "".to_string(), age: 0 };
    match user.validate() {
        Err(ValidationError::NameEmpty) => (),
        Ok(()) => panic!("an empty name must fail validation"),
    }
    let user = User { id: UserId(0), name: "x".to_string(), age: 0 };
    assert!(user.validate().is_ok());
}

#[test]
fn memory_test_get_users() {
    let users = vec![User { id: UserId(100), name: "Name".to_string(), age: 100 }];
    let repo = OnMemoryRepository::with_users(users.clone());

    let res = repo.get_users().unwrap();

    assert_eq!(res, users);
}

#[test]
fn test_get_user() {
    let users = vec![
        User { id: UserId(10), name: "Name".to_string(), age: 100 },
        User { id: UserId(10), name: "Name 2".to_string(), age: 100 },
    ];
    let repo = OnMemoryRepository::with_users(users.clone());

    let res = repo.get_user(&users[0].id).unwrap();

    assert_eq!(res, users.first().cloned());
}

#[test]
fn memory_test_create_user() {
    let mut repo = OnMemoryRepository::new();

    let user = repo
        .create_user(NewUser { name: "Name".to_string(), age: 100 })
        .unwrap();

    assert!(user.id.0 >= 0);
}

#[test]
fn create_keeps_shape_and_assigns_fresh_ids() {
    let mut repo = OnMemoryRepository::new();

    let first = repo
        .create_user(NewUser { name: "Name".to_string(), age: 100 })
        .unwrap();
    assert_eq!(first.name, "Name");
    assert_eq!(first.age, 100);
    assert!(0 <= first.id.0 && first.id.0 <= u32::MAX as i64);

    let second = repo
        .create_user(NewUser { name: "Name".to_string(), age: 100 })
        .unwrap();
    assert_eq!(second.name, "Name");
    assert_eq!(second.age, 100);
    assert_ne!(first.id, second.id);

    assert_eq!(repo.get_users().unwrap().len(), 2);
}

#[test]
fn lookup_after_create_finds_the_record() {
    let mut repo = OnMemoryRepository::new();
    let created = repo
        .create_user(NewUser { name: "Ada".to_string(), age: 36 })
        .unwrap();

    let found = repo.get_user(&created.id).unwrap();
    assert_eq!(found, Some(created));
}

#[test]
fn lookup_of_unassigned_id_is_empty_not_error() {
    let repo = OnMemoryRepository::with_users(vec![User {
        id: UserId(1),
        name: "n".to_string(),
        age: 1,
    }]);

    let res = repo.get_user(&UserId(2));
    assert!(res.is_ok());
    assert_eq!(res.unwrap(), None);
}

#[test]
fn list_returns_every_created_user() {
    let mut repo = OnMemoryRepository::new();
    let inputs = [("a", 1u32), ("b", 2), ("c", 3)];
    let mut created = Vec::new();
    for (name, age) in inputs.iter() {
        created.push(
            repo.create_user(NewUser { name: name.to_string(), age: *age })
                .unwrap(),
        );
    }

    let listed = repo.get_users().unwrap();
    assert_eq!(listed.len(), 3);
    for (i, (name, age)) in inputs.iter().enumerate() {
        assert_eq!(listed[i].name, *name);
        assert_eq!(listed[i].age, *age);
        assert_eq!(listed[i], created[i]);
    }
}

struct ScriptedRepository {
    assigned: i64,
}

impl UserRepository for ScriptedRepository {
    fn get_users(&self) -> Result<Vec<User>, user_service::StoreError> {
        Ok(Vec::new())
    }

    fn get_user(&self, _id: &UserId) -> Result<Option<User>, user_service::StoreError> {
        Ok(None)
    }

    fn create_user(&mut self, user: NewUser) -> Result<User, CreateError> {
        Ok(User { id: UserId(self.assigned), name: user.name, age: user.age })
    }
}

#[test]
fn create_test_create_user() {
    let new_user = NewUser { name: "TestName".to_string(), age: 99 };

    let repo = ScriptedRepository { assigned: 100 };
    let mut usecase = CreateUser::new(repo);
    let user = usecase.run(new_user).unwrap();

    assert_eq!(user.id, UserId(100));
}

#[test]
fn create_test_create_user_if_validation_error() {
    let new_user = NewUser { name: "".to_string(), age: 99 };

    let repo = ScriptedRepository { assigned: 100 };
    let mut usecase = CreateUser::new(repo);
    let res = usecase.run(new_user);

    match res {
        Err(CreateError::Validation(e)) => assert_eq!(e.field(), "name"),
        other => panic!("not a validation error: {:?}", other),
    }
}

#[test]
fn invalid_create_never_reaches_the_store() {
    let repo = OnMemoryRepository::new();
    let mut usecase = CreateUser::new(repo);

    let res = usecase.run(NewUser { name: "".to_string(), age: 100 });
    assert!(matches!(res, Err(CreateError::Validation(_))));

    assert_eq!(usecase.repository().get_users().unwrap().len(), 0);
}

#[test]
fn cli_create_user_round_trip() {
    let user = user_service::cli::create_user("Ada".to_string(), 36).unwrap();
    assert_eq!(user.name, "Ada");
    assert_eq!(user.age, 36);
    assert!(0 <= user.id.0 && user.id.0 <= u32::MAX as i64);

    match user_service::cli::create_user("".to_string(), 1) {
        Err(CreateError::Validation(e)) => assert_eq!(e.field(), "name"),
        other => panic!("not a validation error: {:?}", other),
    }
}

#[test]
fn memory_repository_copies_compare_equal() {
    let repo = OnMemoryRepository::with_users(vec![User {
        id: UserId(1),
        name: "a".to_string(),
        age: 1,
    }]);
    let copy = repo.clone();
    assert_eq!(copy, repo);
    assert!(copy != OnMemoryRepository::new());
}
