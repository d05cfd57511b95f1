use service_locator::slot::{grant, install, try_install};
use service_locator::{ErrorClass, ServiceLocatorError};

#[test]
fn install_fills_and_replaces() {
    let mut cell: Option<Box<u32>> = None;
    assert_eq!(install(&mut cell, Box::new(1)), None);
    assert_eq!(cell, Some(Box::new(1)));
    assert_eq!(install(&mut cell, Box::new(2)), Some(Box::new(1)));
    assert_eq!(cell, Some(Box::new(2)));
}

#[test]
fn try_install_fills_only_an_empty_cell() {
    let mut cell: Option<Box<u32>> = None;
    assert_eq!(try_install(&mut cell, false, Box::new(1)), Ok(()));
    assert_eq!(cell, Some(Box::new(1)));
    assert_eq!(
        try_install(&mut cell, false, Box::new(2)),
        Err(ServiceLocatorError::AlreadyProvided)
    );
    assert_eq!(cell, Some(Box::new(1)));
}

#[test]
fn try_install_discards_what_a_poisoned_lock_protected() {
    let mut cell: Option<Box<u32>> = Some(Box::new(1));
    assert_eq!(try_install(&mut cell, true, Box::new(2)), Ok(()));
    assert_eq!(cell, Some(Box::new(2)));

    let mut empty: Option<Box<u32>> = None;
    assert_eq!(try_install(&mut empty, true, Box::new(3)), Ok(()));
    assert_eq!(empty, Some(Box::new(3)));
}

#[test]
fn grant_decides_access() {
    let occupied: Option<Box<u32>> = Some(Box::new(5));
    let empty: Option<Box<u32>> = None;
    assert_eq!(grant(&occupied, false), Ok(&Box::new(5)));
    assert_eq!(grant(&empty, false), Err(ServiceLocatorError::NotProvided));
    assert_eq!(grant(&occupied, true), Err(ServiceLocatorError::Poisoned));
    assert_eq!(grant(&empty, true), Err(ServiceLocatorError::Poisoned));
}

#[test]
fn error_descriptions() {
    assert_eq!(
        ServiceLocatorError::NotProvided.to_string(),
        "The service is not provided yet."
    );
    assert_eq!(
        ServiceLocatorError::AlreadyProvided.to_string(),
        "The service is already provided."
    );
    assert_eq!(
        ServiceLocatorError::Poisoned.to_string(),
        "Some caller panicked while the service was mutably borrowed."
    );
    assert_eq!(ServiceLocatorError::Poisoned.message(), ServiceLocatorError::Poisoned.to_string());
}

#[test]
fn error_classes() {
    assert_eq!(ServiceLocatorError::NotProvided.class(), ErrorClass::NotFound);
    assert_eq!(ServiceLocatorError::AlreadyProvided.class(), ErrorClass::AlreadyExists);
    assert_eq!(ServiceLocatorError::Poisoned.class(), ErrorClass::Other);
}

#[test]
fn error_into_io_error() {
    let not_found = std::io::Error::from(ServiceLocatorError::NotProvided);
    assert_eq!(not_found.kind(), std::io::ErrorKind::NotFound);
    assert_eq!(not_found.to_string(), "The service is not provided yet.");

    let exists: std::io::Error = ServiceLocatorError::AlreadyProvided.into();
    assert_eq!(exists.kind(), std::io::ErrorKind::AlreadyExists);
    assert_eq!(exists.to_string(), "The service is already provided.");

    let other = std::io::Error::from(ServiceLocatorError::Poisoned);
    assert_eq!(other.kind(), std::io::ErrorKind::Other);
    assert_eq!(
        other.to_string(),
        "Some caller panicked while the service was mutably borrowed."
    );
}
