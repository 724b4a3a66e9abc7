use deluge::device::{code_to_err, Deluge, Error};

#[test]
fn deluge() {
    let deluge = Deluge::new();

    assert!(deluge.is_ok());

    let deluge = Deluge::new();

    assert!(deluge.is_ok());
}

#[test]
fn highway_dispatch() {
    let mut deluge = Deluge::new().unwrap();
    let highway = deluge.new_highway(&[0, 0, 0, 0]);

    assert!(highway.is_ok());
    assert!(highway.as_ref().unwrap().space(&deluge) > 0);

    {
        let highway2 = deluge.new_highway(&[1, 1, 1, 1]);

        assert!(highway2.is_ok());
        assert!(highway2.as_ref().unwrap().space(&deluge) > 0);
    }

    assert!(highway.as_ref().unwrap().space(&deluge) > 0);
}

#[test]
fn highway_station() {
    let mut deluge = Deluge::new().unwrap();
    let mut highway = deluge.new_highway(&[0, 0, 0, 0]).unwrap();
    let space = highway.space(&deluge);

    assert!(space > 0);
    assert!(highway.reserve(&mut deluge, space).is_ok());
}

#[test]
fn highway_station_overalloc() {
    let mut deluge = Deluge::new().unwrap();
    let mut highway = deluge.new_highway(&[0, 0, 0, 0]).unwrap();

    let space = highway.space(&deluge);

    assert!(space > 0);
    assert!(highway.reserve(&mut deluge, space + 1).is_err());
}

#[test]
fn highway_station_peer_overalloc() {
    let mut deluge = Deluge::new().unwrap();
    let mut highway0 = deluge.new_highway(&[0, 0, 0, 0]).unwrap();
    let mut highway1 = deluge.new_highway(&[1, 1, 1, 1]).unwrap();

    let space = highway0.space(&deluge);

    assert!(space > 0);
    assert!(highway0.reserve(&mut deluge, space).is_ok());
    assert!(highway1.reserve(&mut deluge, 1).is_err());
}

#[test]
fn reservation_is_exact_and_all_or_nothing() {
    let mut pool = Deluge::with_capacity(100);
    let mut highway = pool.new_highway(&[0, 0, 0, 0]).unwrap();

    assert_eq!(highway.space(&pool), 100);
    assert!(highway.reserve(&mut pool, 30).is_ok());
    assert_eq!(highway.space(&pool), 70);
    assert_eq!(highway.reserve(&mut pool, 71), Err(Error::OutOfGmem));
    assert_eq!(highway.space(&pool), 70);
    assert!(highway.reserve(&mut pool, 70).is_ok());
    assert_eq!(highway.space(&pool), 0);
}

#[test]
fn sibling_starved_after_full_reservation() {
    let mut pool = Deluge::with_capacity(8);
    let mut a = pool.new_highway(&[0, 0, 0, 0]).unwrap();
    let mut b = pool.new_highway(&[1, 1, 1, 1]).unwrap();

    assert!(a.reserve(&mut pool, 8).is_ok());
    assert_eq!(b.reserve(&mut pool, 1), Err(Error::OutOfGmem));
    assert_eq!(b.reserve(&mut pool, 1), Err(Error::OutOfGmem));
    assert_eq!(b.space(&pool), 0);
}

#[test]
fn device_status_codes_map_totally() {
    assert_eq!(code_to_err(-1), Error::Failure);
    assert_eq!(code_to_err(-2), Error::NoDev);
    assert_eq!(code_to_err(-3), Error::OutOfGmem);
    assert_eq!(code_to_err(-4), Error::OutOfLmem);
    assert_eq!(code_to_err(-5), Error::Cancel);
    assert_eq!(code_to_err(-1000), Error::Failure);
    assert_eq!(code_to_err(3), Error::Failure);
}
