use gstd_fluent::{
    create_program, create_program_bytes, reply, reply_bytes, reply_input, send, send_bytes,
    send_input, ActorId, Call, CodeId, Payload, ReservationId,
};

fn actor(b: u8) -> ActorId {
    ActorId::from([b; 32])
}

fn reservation(b: u8) -> ReservationId {
    ReservationId::from([b; 32])
}

#[test]
fn send_bytes_with_value_delay_and_gas_limit() {
    let z = actor(0);
    let builder = send_bytes(z, b"payload".to_vec())
        .with_value(1)
        .with_delay(2)
        .with_gas_limit(3);
    assert_eq!(builder.plan(), Call::WithGasDelayed { gas_limit: 3, value: 1, delay: 2 });
    assert_eq!(builder.program(), z);
    assert_eq!(builder.payload(), &Payload::Bytes(b"payload".to_vec()));
}

#[test]
fn reply_encoded_from_reservation_without_value() {
    let r = reservation(9);
    let builder = reply(String::from("payload")).with_gas_from_reservation(r);
    assert_eq!(builder.plan(), Call::FromReservation { reservation_id: r, value: 0 });
    assert_eq!(builder.payload(), &Payload::Encoded(String::from("payload")));
}

#[test]
fn create_program_bytes_without_modifiers() {
    let c = CodeId::from([4u8; 32]);
    let builder = create_program_bytes(c, b"init".to_vec());
    assert_eq!(builder.plan(), Call::Plain { value: 0 });
    assert_eq!(builder.code_id(), c);
    assert_eq!(builder.payload(), &Payload::Bytes(b"init".to_vec()));
}

#[test]
fn send_delay_and_gas_limit_without_value_forwards_zero() {
    let builder = send_bytes(actor(1), vec![1, 2]).with_delay(5).with_gas_limit(7);
    assert_eq!(builder.plan(), Call::WithGasDelayed { gas_limit: 7, value: 0, delay: 5 });
}

#[test]
fn send_bytes_table() {
    let p = actor(2);
    let r = reservation(3);
    assert_eq!(send_bytes(p, vec![]).plan(), Call::Plain { value: 0 });
    assert_eq!(send_bytes(p, vec![]).with_value(10).plan(), Call::Plain { value: 10 });
    assert_eq!(send_bytes(p, vec![]).with_delay(4).plan(), Call::Delayed { value: 0, delay: 4 });
    assert_eq!(send_bytes(p, vec![]).with_gas_limit(8).plan(), Call::WithGas { gas_limit: 8, value: 0 });
    assert_eq!(
        send_bytes(p, vec![]).with_gas_from_reservation(r).with_value(6).plan(),
        Call::FromReservation { reservation_id: r, value: 6 }
    );
    assert_eq!(
        send_bytes(p, vec![]).with_delay(2).with_gas_from_reservation(r).plan(),
        Call::DelayedFromReservation { reservation_id: r, value: 0, delay: 2 }
    );
}

#[test]
fn send_encoded_table() {
    let p = actor(5);
    let r = reservation(6);
    assert_eq!(send(p, 42u32).plan(), Call::Plain { value: 0 });
    assert_eq!(send(p, 42u32).with_delay(1).with_value(2).plan(), Call::Delayed { value: 2, delay: 1 });
    assert_eq!(
        send(p, 42u32).with_gas_limit(100).with_value(3).plan(),
        Call::WithGas { gas_limit: 100, value: 3 }
    );
    assert_eq!(
        send(p, 42u32).with_gas_limit(100).with_delay(9).plan(),
        Call::WithGasDelayed { gas_limit: 100, value: 0, delay: 9 }
    );
    assert_eq!(
        send(p, 42u32).with_gas_from_reservation(r).plan(),
        Call::FromReservation { reservation_id: r, value: 0 }
    );
    assert_eq!(
        send(p, 42u32).with_gas_from_reservation(r).with_delay(3).with_value(1).plan(),
        Call::DelayedFromReservation { reservation_id: r, value: 1, delay: 3 }
    );
    assert_eq!(send(p, 42u32).payload(), &Payload::Encoded(42u32));
}

#[test]
fn send_input_table() {
    let p = actor(7);
    assert_eq!(send_input(p, 0..4).plan(), Call::Plain { value: 0 });
    assert_eq!(send_input(p, 0..4).with_delay(3).plan(), Call::Delayed { value: 0, delay: 3 });
    assert_eq!(send_input(p, 0..4).with_gas_limit(5).plan(), Call::WithGas { gas_limit: 5, value: 0 });
    assert_eq!(
        send_input(p, 0..4).with_value(1).with_gas_limit(5).with_delay(6).plan(),
        Call::WithGasDelayed { gas_limit: 5, value: 1, delay: 6 }
    );
    assert_eq!(send_input(p, 2..9).payload(), &Payload::Input(2..9));
}

#[test]
fn reply_table() {
    let r = reservation(8);
    assert_eq!(reply_bytes(vec![1]).plan(), Call::Plain { value: 0 });
    assert_eq!(reply_bytes(vec![1]).with_value(4).plan(), Call::Plain { value: 4 });
    assert_eq!(reply_bytes(vec![1]).with_gas_limit(11).plan(), Call::WithGas { gas_limit: 11, value: 0 });
    assert_eq!(
        reply_bytes(vec![1]).with_value(2).with_gas_from_reservation(r).plan(),
        Call::FromReservation { reservation_id: r, value: 2 }
    );
    assert_eq!(reply(7i64).with_gas_limit(1).with_value(1).plan(), Call::WithGas { gas_limit: 1, value: 1 });
    assert_eq!(reply_input(0..usize::MAX).plan(), Call::Plain { value: 0 });
    assert_eq!(reply_input(1..3).with_gas_limit(2).plan(), Call::WithGas { gas_limit: 2, value: 0 });
}

#[test]
fn create_program_table() {
    let c = CodeId::from([1u8; 32]);
    assert_eq!(create_program_bytes(c, vec![]).with_value(5).plan(), Call::Plain { value: 5 });
    assert_eq!(create_program_bytes(c, vec![]).with_delay(2).plan(), Call::Delayed { value: 0, delay: 2 });
    assert_eq!(
        create_program_bytes(c, vec![]).with_gas_limit(9).plan(),
        Call::WithGas { gas_limit: 9, value: 0 }
    );
    assert_eq!(
        create_program(c, (1u8, 2u16)).with_value(1).with_delay(2).with_gas_limit(3).plan(),
        Call::WithGasDelayed { gas_limit: 3, value: 1, delay: 2 }
    );
}

#[test]
fn value_reads_back_or_defaults_to_zero() {
    assert_eq!(send_bytes(actor(1), vec![]).value(), 0);
    assert_eq!(send_bytes(actor(1), vec![]).with_value(77).value(), 77);
    assert_eq!(reply_bytes(vec![]).value(), 0);
    assert_eq!(reply_bytes(vec![]).with_value(u128::MAX).value(), u128::MAX);
    let c = CodeId::from([0u8; 32]);
    assert_eq!(create_program_bytes(c, vec![]).with_value(3).value(), 3);
    assert_eq!(send(actor(2), 1u8).with_value(5).for_reply().value(), 5);
    assert_eq!(create_program(c, 1u8).for_reply_as::<u32>().value(), 0);
}

#[test]
fn gas_limit_then_plan_uses_the_limit() {
    let r = reservation(1);
    let with_limit = send_bytes(actor(3), vec![]).with_gas_limit(12);
    assert_eq!(with_limit.plan(), Call::WithGas { gas_limit: 12, value: 0 });
    let with_reservation = send_bytes(actor(3), vec![]).with_gas_from_reservation(r);
    assert_eq!(with_reservation.plan(), Call::FromReservation { reservation_id: r, value: 0 });
}

#[test]
fn send_for_reply_plans() {
    let p = actor(4);
    let r = reservation(2);
    assert_eq!(send_bytes(p, vec![]).for_reply().plan(), (Call::Plain { value: 0 }, 0));
    assert_eq!(
        send_bytes(p, vec![]).with_value(3).for_reply().with_reply_deposit(50).plan(),
        (Call::Plain { value: 3 }, 50)
    );
    assert_eq!(
        send(p, 1u8).with_gas_limit(20).for_reply_as::<u64>().with_reply_deposit(5).plan(),
        (Call::WithGas { gas_limit: 20, value: 0 }, 5)
    );
    assert_eq!(
        send(p, 1u8).with_gas_from_reservation(r).for_reply().plan(),
        (Call::FromReservation { reservation_id: r, value: 0 }, 0)
    );
    assert_eq!(
        send_input(p, 0..1).with_gas_limit(4).with_value(2).for_reply_as::<String>().plan(),
        (Call::WithGas { gas_limit: 4, value: 2 }, 0)
    );
}

#[test]
fn create_program_for_reply_plans() {
    let c = CodeId::from([2u8; 32]);
    assert_eq!(create_program_bytes(c, vec![]).for_reply().plan(), (Call::Plain { value: 0 }, 0));
    assert_eq!(
        create_program_bytes(c, vec![]).with_gas_limit(30).for_reply().with_reply_deposit(7).plan(),
        (Call::WithGas { gas_limit: 30, value: 0 }, 7)
    );
    assert_eq!(
        create_program(c, 9u16).with_value(8).for_reply_as::<u8>().with_reply_deposit(1).plan(),
        (Call::Plain { value: 8 }, 1)
    );
}
