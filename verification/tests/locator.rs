use service_locator::{ServiceLocator, ServiceLocatorError};

trait Counter {
    fn name(&self) -> &'static str;
    fn count(&self) -> u32;
    fn bump(&mut self);
}

struct CounterA {
    count: u32,
}

struct CounterB {
    count: u32,
}

impl Counter for CounterA {
    fn name(&self) -> &'static str {
        "A"
    }

    fn count(&self) -> u32 {
        self.count
    }

    fn bump(&mut self) {
        self.count += 1;
    }
}

impl Counter for CounterB {
    fn name(&self) -> &'static str {
        "B"
    }

    fn count(&self) -> u32 {
        self.count
    }

    fn bump(&mut self) {
        self.count += 10;
    }
}

fn empty_locator() -> ServiceLocator<dyn Counter + Send + Sync> {
    ServiceLocator::new()
}

#[test]
fn empty_slot_refuses_access_as_not_provided() {
    let locator = empty_locator();
    for _ in 0..3 {
        assert_eq!(locator.service().err(), Some(ServiceLocatorError::NotProvided));
        assert_eq!(locator.service_mut().err(), Some(ServiceLocatorError::NotProvided));
    }
    locator.provide(Box::new(CounterA { count: 0 }));
    assert!(locator.service().is_ok());
    assert!(locator.service_mut().is_ok());
}

#[test]
fn empty_slot_is_released_after_a_refusal() {
    let locator = empty_locator();
    assert!(locator.service_mut().is_err());
    assert!(locator.service().is_err());
    // Had a refusal kept its hold, this registration would never return.
    assert_eq!(locator.try_provide(Box::new(CounterA { count: 2 })), Ok(()));
    assert_eq!(locator.service().unwrap().count(), 2);
}

#[test]
fn provide_replaces_the_service() {
    let locator = empty_locator();
    locator.provide(Box::new(CounterA { count: 7 }));
    {
        let service = locator.service().unwrap();
        assert_eq!(service.name(), "A");
        assert_eq!(service.count(), 7);
    }
    locator.provide(Box::new(CounterB { count: 9 }));
    {
        let service = locator.service().unwrap();
        assert_eq!(service.name(), "B");
        assert_eq!(service.count(), 9);
    }
    assert_eq!(locator.service_mut().unwrap().name(), "B");
}

#[test]
fn scenario_provide_replace_mutate() {
    let locator = empty_locator();
    assert_eq!(locator.service().err(), Some(ServiceLocatorError::NotProvided));

    locator.provide(Box::new(CounterA { count: 1 }));
    assert_eq!(locator.service().unwrap().name(), "A");

    locator.provide(Box::new(CounterB { count: 1 }));
    {
        let mut service = locator.service_mut().unwrap();
        assert_eq!(service.name(), "B");
        service.bump();
        assert_eq!(service.count(), 11);
    }
    let service = locator.service().unwrap();
    assert_eq!(service.name(), "B");
    assert_eq!(service.count(), 11);
}

#[test]
fn scenario_try_provide_twice() {
    let locator = empty_locator();
    assert_eq!(locator.try_provide(Box::new(CounterA { count: 3 })), Ok(()));
    assert_eq!(
        locator.try_provide(Box::new(CounterB { count: 4 })),
        Err(ServiceLocatorError::AlreadyProvided)
    );
    let service = locator.service().unwrap();
    assert_eq!(service.name(), "A");
    assert_eq!(service.count(), 3);
}

#[test]
fn try_provide_after_provide_is_refused() {
    let locator = empty_locator();
    locator.provide(Box::new(CounterB { count: 5 }));
    assert_eq!(
        locator.try_provide(Box::new(CounterA { count: 6 })),
        Err(ServiceLocatorError::AlreadyProvided)
    );
    assert_eq!(locator.service().unwrap().name(), "B");
    locator.provide(Box::new(CounterA { count: 6 }));
    assert_eq!(locator.service().unwrap().name(), "A");
}

#[test]
fn many_read_guards_at_once() {
    let locator = empty_locator();
    locator.provide(Box::new(CounterA { count: 8 }));
    let first = locator.service().unwrap();
    let second = locator.service().unwrap();
    let third = locator.service().unwrap();
    assert_eq!(first.count() + second.count() + third.count(), 24);
}

#[test]
fn write_guard_reads_and_writes() {
    let locator = empty_locator();
    locator.provide(Box::new(CounterA { count: 0 }));
    {
        let mut service = locator.service_mut().unwrap();
        service.bump();
        service.bump();
        assert_eq!(service.count(), 2);
    }
    assert_eq!(locator.service().unwrap().count(), 2);
}
