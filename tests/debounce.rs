use macropad::debounce::{DebouncedInputArray, DebouncedInputPin, DebouncedPin, Pull};

struct TestInputPin {
    value: bool,
}

impl TestInputPin {
    fn new(value: bool) -> TestInputPin {
        TestInputPin { value }
    }
    fn set_value(&mut self, value: bool) {
        self.value = value;
    }
}

struct Debouncer {
    pin: TestInputPin,
    debounced: DebouncedPin,
}

impl Debouncer {
    fn new(pin: TestInputPin, default_state: bool) -> Debouncer {
        Debouncer { pin, debounced: DebouncedPin::new(default_state) }
    }
    fn update(&mut self) {
        self.debounced.update(self.pin.value);
    }
    fn is_high(&self) -> bool {
        self.debounced.is_high()
    }
    fn is_low(&self) -> bool {
        self.debounced.is_low()
    }
}

#[test]
fn is_low_if_starts_low_unbounced() {
    let test_pin = TestInputPin::new(false);
    let mut debouncer = Debouncer::new(test_pin, false);
    debouncer.update();

    assert!(debouncer.is_low());
}

#[test]
fn is_high_if_starts_high_unbounced() {
    let test_pin = TestInputPin::new(true);
    let mut debouncer = Debouncer::new(test_pin, true);
    debouncer.update();

    assert!(debouncer.is_high());
}

#[test]
fn is_low_if_starts_high_bounced() {
    let test_pin = TestInputPin::new(true);
    let mut debouncer = Debouncer::new(test_pin, false);
    debouncer.update();

    assert!(debouncer.is_low());
}

#[test]
fn is_heigh_if_starts_low_bounced() {
    let test_pin = TestInputPin::new(false);
    let mut debouncer = Debouncer::new(test_pin, true);
    debouncer.update();

    assert!(debouncer.is_high());
}

#[test]
fn change_after_5_consecutive_reads_high() {
    let test_pin = TestInputPin::new(true);
    let mut debouncer = Debouncer::new(test_pin, false);
    for _ in 0..4 {
        debouncer.update();
        assert!(debouncer.is_low());
    }

    debouncer.update();
    assert!(debouncer.is_high());
}

#[test]
fn change_after_5_consecutive_reads_low() {
    let test_pin = TestInputPin::new(false);
    let mut debouncer = Debouncer::new(test_pin, true);
    for _ in 0..4 {
        debouncer.update();
        assert!(debouncer.is_high());
    }

    debouncer.update();
    assert!(debouncer.is_low());
}

#[test]
fn change_high_after_5_consecutive_afterbouncing_reads() {
    let test_pin = TestInputPin::new(false);
    let mut debouncer = Debouncer::new(test_pin, false);
    for i in 0..14 {
        debouncer.pin.set_value(i % 2 == 0);
        debouncer.update();
        assert!(debouncer.is_low());
    }
    debouncer.pin.set_value(true);
    for _ in 0..4 {
        debouncer.update();
        assert!(debouncer.is_low());
    }

    debouncer.update();
    assert!(debouncer.is_high());
}

#[test]
fn change_low_after_5_consecutive_afterbouncing_reads() {
    let test_pin = TestInputPin::new(true);
    let mut debouncer = Debouncer::new(test_pin, true);
    for i in 0..15 {
        debouncer.pin.set_value(i % 2 == 0);
        debouncer.update();
        assert!(debouncer.is_high());
    }
    debouncer.pin.set_value(false);
    for _ in 0..4 {
        debouncer.update();
        assert!(debouncer.is_high());
    }

    debouncer.update();
    assert!(debouncer.is_low());
}

#[test]
fn bounce_then_five_highs_flips_on_the_fifth() {
    let mut pin = DebouncedPin::new(false);
    for i in 0..14 {
        pin.update(i % 2 == 0);
        assert!(!pin.is_high());
    }
    for n in 1..=5 {
        pin.update(true);
        assert_eq!(pin.is_high(), n == 5);
    }
}

#[test]
fn single_noisy_sample_never_flips() {
    let mut pin = DebouncedPin::new(true);
    for _ in 0..10 {
        pin.update(true);
    }
    pin.update(false);
    assert!(pin.is_high());
    for _ in 0..4 {
        pin.update(true);
        assert!(pin.is_high());
    }
}

#[test]
fn four_lows_between_highs_do_not_flip() {
    let mut pin = DebouncedPin::new(true);
    for _ in 0..4 {
        pin.update(false);
    }
    pin.update(true);
    assert!(pin.is_high());
    for _ in 0..4 {
        pin.update(false);
        assert!(pin.is_high());
    }
    pin.update(false);
    assert!(pin.is_low());
}

#[test]
fn idle_level_follows_the_wiring() {
    let up = DebouncedInputPin::new(Pull::Up);
    let down = DebouncedInputPin::new(Pull::Down);
    assert!(up.is_high());
    assert!(down.is_low());
}

#[test]
fn input_pin_debounces_like_a_pin() {
    let mut pin = DebouncedInputPin::new(Pull::Up);
    for _ in 0..4 {
        pin.update(false);
        assert!(pin.is_high());
    }
    pin.update(false);
    assert!(pin.is_low());
}

#[test]
fn input_array_debounces_each_slot() {
    let mut inputs: DebouncedInputArray<3> = DebouncedInputArray::new(&[Pull::Up, Pull::Down, Pull::Up]);
    assert_eq!(inputs.values(), [true, false, true]);
    for _ in 0..4 {
        inputs.tick(&[false, true, true]);
        assert_eq!(inputs.values(), [true, false, true]);
    }
    inputs.tick(&[false, true, true]);
    assert_eq!(inputs.values(), [false, true, true]);
}
