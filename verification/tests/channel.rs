use six_step::channel::Channel;

#[test]
fn new_channel_is_floated_at_zero_duty() {
    let c = Channel::new(8499);
    assert_eq!(c.get_max_duty(), 8499);
    assert_eq!(c.get_duty(), 0);
    assert!(!c.is_enabled());
}

#[test]
fn set_duty_keeps_the_output_stage() {
    let mut c = Channel::new(8499);
    c.set_duty(4249);
    assert_eq!(c.get_duty(), 4249);
    assert!(!c.is_enabled());
    c.enable();
    c.set_duty(1);
    assert_eq!(c.get_duty(), 1);
    assert!(c.is_enabled());
    assert_eq!(c.get_max_duty(), 8499);
}

#[test]
fn enable_and_disable_keep_the_duty() {
    let mut c = Channel::new(100);
    c.set_duty(50);
    c.enable();
    assert!(c.is_enabled());
    assert_eq!(c.get_duty(), 50);
    c.enable();
    assert!(c.is_enabled());
    c.disable();
    assert!(!c.is_enabled());
    assert_eq!(c.get_duty(), 50);
    c.disable();
    assert!(!c.is_enabled());
    assert_eq!(c.get_max_duty(), 100);
}
