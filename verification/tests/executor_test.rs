use executor::{CarType, Executor};


#[test]
fn test_default_init() {
    let e = Executor::new();
    assert_eq!(e.state(), (0,0,'N'));
    assert_eq!(e.car_type(), CarType::Normal);
}

#[test]
fn test_normal_move() {
    let mut e = Executor::init(0,0,'N');
    e.execute('M').unwrap();
    assert_eq!(e.state(), (0,1,'N'));
}

#[test]
fn test_normal_turn() {
    let mut e = Executor::new();
    e.execute('L').unwrap();
    assert_eq!(e.state(), (0,0,'W'));
    e.execute('R').unwrap();
    assert_eq!(e.state(), (0,0,'N'));
}

#[test]
fn test_normal_batch() {
    let mut e = Executor::init(0,0,'N');
    e.execute_batch("MMRMMLMM").unwrap();
    assert_eq!(e.state(), (2,4,'N'));
}

#[test]
fn test_normal_boost() {
    let mut e = Executor::new();
    e.execute('F').unwrap();
    e.execute('M').unwrap();
    assert_eq!(e.state(), (0,2,'N'));
    e.execute('L').unwrap();
    assert_eq!(e.state(), (0,3,'W'));
}

#[test]
fn test_normal_reverse() {
    let mut e = Executor::new();
    e.execute('B').unwrap();
    e.execute('M').unwrap();
    assert_eq!(e.state(), (0,-1,'N'));
    e.execute('L').unwrap();
    assert_eq!(e.state(), (0,-1,'E'));
}
#[test]
fn test_sports_car_normal_move() {
    let mut e = Executor::init_with_type(0,0,'N', CarType::SportsCar);
    e.execute('M').unwrap();
    assert_eq!(e.state(), (0,2,'N'));
}

#[test]
fn test_sports_car_normal_turn_right() {
    let mut e = Executor::init_with_type(0,0,'N', CarType::SportsCar);
    e.execute('R').unwrap();
    assert_eq!(e.state(), (1,0,'E'));
}

#[test]
fn test_sports_car_reverse_move_and_turn() {
    let mut e = Executor::init_with_type(0,0,'N', CarType::SportsCar);
    e.execute('B').unwrap();
    e.execute('M').unwrap();
    assert_eq!(e.state(), (0,-2,'N'));
    e.execute('L').unwrap();
    assert_eq!(e.state(), (-1,-2,'E'));
    e.execute('R').unwrap();
    assert_eq!(e.state(), (-1,-3,'N'));
}

#[test]
fn test_sports_car_boost_mode() {
    let mut e = Executor::init_with_type(0,0,'N', CarType::SportsCar);
    e.execute('F').unwrap();
    e.execute('M').unwrap();
    assert_eq!(e.state(), (0,4,'N'));
    e.execute('L').unwrap();
    assert_eq!(e.state(), (-1,5,'W'));
}

#[test]
fn test_sports_car_combined() {
    let mut e = Executor::init_with_type(0,0,'N', CarType::SportsCar);
    e.execute('B').unwrap();
    e.execute('F').unwrap();
    e.execute('M').unwrap();
    assert_eq!(e.state(), (0,-4,'N'));
    e.execute('L').unwrap();
    assert_eq!(e.state(), (-1,-5,'E'));
}
#[test]
fn test_bus_normal_move() {
    let mut e = Executor::init_with_type(0,0,'N', CarType::Bus);
    e.execute('M').unwrap();
    assert_eq!(e.state(), (0,1,'N'));
}

#[test]
fn test_bus_normal_turn_left() {
    let mut e = Executor::init_with_type(0,0,'N', CarType::Bus);
    e.execute('L').unwrap();
    assert_eq!(e.state(), (0,1,'W'));
}

#[test]
fn test_bus_normal_turn_right() {
    let mut e = Executor::init_with_type(0,0,'N', CarType::Bus);
    e.execute('R').unwrap();
    assert_eq!(e.state(), (0,1,'E'));
}

#[test]
fn test_bus_reverse_mode() {
    let mut e = Executor::init_with_type(0,0,'N', CarType::Bus);
    e.execute('B').unwrap();
    e.execute('M').unwrap();
    assert_eq!(e.state(), (0,-1,'N'));
    e.execute('L').unwrap();
    assert_eq!(e.state(), (0,-2,'E'));
}

#[test]
fn test_bus_boost_mode() {
    let mut e = Executor::init_with_type(0,0,'N', CarType::Bus);
    e.execute('F').unwrap();
    e.execute('M').unwrap();
    assert_eq!(e.state(), (0,2,'N'));
    e.execute('L').unwrap();
    assert_eq!(e.state(), (0,4,'W'));
}

#[test]
fn test_bus_combined() {
    let mut e = Executor::init_with_type(0,0,'N', CarType::Bus);
    e.execute('B').unwrap();
    e.execute('F').unwrap();
    e.execute('M').unwrap();
    assert_eq!(e.state(), (0,-2,'N'));
    e.execute('L').unwrap();
    assert_eq!(e.state(), (0,-4,'E'));
}
#[test]
fn test_different_types_behavior() {
    let mut normal = Executor::init(0,0,'N');
    let mut sports = Executor::init_with_type(0,0,'N', CarType::SportsCar);
    let mut bus = Executor::init_with_type(0,0,'N', CarType::Bus);
    normal.execute_batch("ML").unwrap();
    sports.execute_batch("ML").unwrap();
    bus.execute_batch("ML").unwrap();
    assert_eq!(normal.state(), (0,1,'W'));
    assert_eq!(sports.state(), (-1,2,'W'));
    assert_eq!(bus.state(), (0,2,'W'));
}

#[test]
fn test_toggle_modes() {
    let mut e = Executor::init_with_type(0,0,'N', CarType::SportsCar);
    e.execute_batch("BFBF").unwrap();
    assert_eq!(e.modes(), (false, false));
    e.execute('B').unwrap();
    assert_eq!(e.modes(), (true, false));
    e.execute('F').unwrap();
    assert_eq!(e.modes(), (true, true));
    e.execute('B').unwrap();
    assert_eq!(e.modes(), (false, true));
}

#[test]
fn test_invalid_command() {
    let mut e = Executor::new();
    assert!(e.execute('X').is_err());
}
