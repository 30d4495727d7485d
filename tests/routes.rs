use gstd_fluent::{
    create_program, create_program_bytes, reply, reply_bytes, reply_input, send, send_bytes,
    send_input, ActorId, CodeId, CreateProgramForReplyRoute, CreateProgramRoute, ReplyRoute,
    ReservationId, SendForReplyRoute, SendRoute,
};

#[test]
fn route_send_bytes_value_delay_gas_limit() {
    let z = ActorId::zero();
    let route = send_bytes(z, b"payload".to_vec())
        .with_value(1)
        .with_delay(2)
        .with_gas_limit(3)
        .into_route();
    assert_eq!(
        route,
        SendRoute::SendBytesWithGasDelayed {
            program: z,
            payload: b"payload".to_vec(),
            gas_limit: 3,
            value: 1,
            delay: 2,
        }
    );
}

#[test]
fn route_send_encoded_doc_example_with_gas_delayed() {
    let route = send(ActorId::zero(), String::from("payload"))
        .with_delay(30)
        .with_gas_limit(1_000_000)
        .with_value(1_000)
        .into_route();
    assert_eq!(
        route,
        SendRoute::SendWithGasDelayed {
            program: ActorId::zero(),
            payload: String::from("payload"),
            gas_limit: 1_000_000,
            value: 1_000,
            delay: 30,
        }
    );
}

#[test]
fn route_send_encoded_delay_only() {
    let route = send(ActorId::zero(), String::from("payload")).with_delay(30).into_route();
    assert_eq!(
        route,
        SendRoute::SendDelayed { program: ActorId::zero(), payload: String::from("payload"), value: 0, delay: 30 }
    );
}

#[test]
fn route_send_encoded_delay_and_gas_without_value() {
    let z = ActorId::from([3u8; 32]);
    let route = send(z, 5u16).with_delay(4).with_gas_limit(9).into_route();
    assert_eq!(route, SendRoute::SendWithGasDelayed { program: z, payload: 5u16, gas_limit: 9, value: 0, delay: 4 });
}

#[test]
fn route_send_bytes_reservations() {
    let z = ActorId::from([1u8; 32]);
    let r = ReservationId::from([2u8; 32]);
    assert_eq!(
        send_bytes(z, vec![7]).with_gas_from_reservation(r).into_route(),
        SendRoute::SendBytesFromReservation { reservation_id: r, program: z, payload: vec![7], value: 0 }
    );
    assert_eq!(
        send_bytes(z, vec![7]).with_delay(6).with_value(2).with_gas_from_reservation(r).into_route(),
        SendRoute::SendBytesDelayedFromReservation {
            reservation_id: r,
            program: z,
            payload: vec![7],
            value: 2,
            delay: 6,
        }
    );
    assert_eq!(send_bytes(z, vec![]).into_route(), SendRoute::SendBytes { program: z, payload: vec![], value: 0 });
}

#[test]
fn route_send_input() {
    let z = ActorId::from([4u8; 32]);
    assert_eq!(send_input(z, 0..8).into_route(), SendRoute::SendInput { program: z, value: 0, range: 0..8 });
    assert_eq!(
        send_input(z, 1..3).with_delay(2).with_value(5).into_route(),
        SendRoute::SendInputDelayed { program: z, value: 5, range: 1..3, delay: 2 }
    );
    assert_eq!(
        send_input(z, 1..3).with_gas_limit(10).into_route(),
        SendRoute::SendInputWithGas { program: z, gas_limit: 10, value: 0, range: 1..3 }
    );
    assert_eq!(
        send_input(z, 1..3).with_gas_limit(10).with_delay(1).into_route(),
        SendRoute::SendInputWithGasDelayed { program: z, gas_limit: 10, value: 0, range: 1..3, delay: 1 }
    );
}

#[test]
fn route_does_not_depend_on_modifier_order() {
    let z = ActorId::from([5u8; 32]);
    let a = send_bytes(z, vec![1]).with_value(1).with_delay(2).with_gas_limit(3).into_route();
    let b = send_bytes(z, vec![1]).with_gas_limit(3).with_value(1).with_delay(2).into_route();
    let c = send_bytes(z, vec![1]).with_delay(2).with_gas_limit(3).with_value(1).into_route();
    assert_eq!(a, b);
    assert_eq!(b, c);
}

#[test]
fn route_reply_encoded_from_reservation_without_value() {
    let r = ReservationId::from([9u8; 32]);
    let route = reply(String::from("payload")).with_gas_from_reservation(r).into_route();
    assert_eq!(
        route,
        ReplyRoute::ReplyFromReservation { reservation_id: r, payload: String::from("payload"), value: 0 }
    );
}

#[test]
fn route_reply_bytes_and_input() {
    assert_eq!(reply_bytes(vec![1]).with_value(3).into_route(), ReplyRoute::ReplyBytes { payload: vec![1], value: 3 });
    assert_eq!(
        reply_bytes(vec![1]).with_gas_limit(4).into_route(),
        ReplyRoute::ReplyBytesWithGas { payload: vec![1], gas_limit: 4, value: 0 }
    );
    assert_eq!(reply(8u8).into_route(), ReplyRoute::Reply { payload: 8u8, value: 0 });
    assert_eq!(reply_input(0..usize::MAX).into_route(), ReplyRoute::ReplyInput { value: 0, range: 0..usize::MAX });
    assert_eq!(
        reply_input(2..4).with_value(1).with_gas_limit(6).into_route(),
        ReplyRoute::ReplyInputWithGas { gas_limit: 6, value: 1, range: 2..4 }
    );
}

#[test]
fn route_create_program_bytes_without_modifiers() {
    let c = CodeId::from([6u8; 32]);
    assert_eq!(
        create_program_bytes(c, b"payload".to_vec()).into_route(),
        CreateProgramRoute::CreateProgramBytes { code_id: c, payload: b"payload".to_vec(), value: 0 }
    );
}

#[test]
fn route_create_program_value_delay_gas_limit() {
    let c = CodeId::default();
    assert_eq!(
        create_program_bytes(c, b"payload".to_vec()).with_value(1).with_delay(2).with_gas_limit(3).into_route(),
        CreateProgramRoute::CreateProgramBytesWithGasDelayed {
            code_id: c,
            payload: b"payload".to_vec(),
            gas_limit: 3,
            value: 1,
            delay: 2,
        }
    );
    assert_eq!(
        create_program(c, 1u32).with_delay(5).into_route(),
        CreateProgramRoute::CreateProgramDelayed { code_id: c, payload: 1u32, value: 0, delay: 5 }
    );
}

#[test]
fn route_send_for_reply_forwards_deposit() {
    let z = ActorId::from([7u8; 32]);
    let r = ReservationId::from([8u8; 32]);
    assert_eq!(
        send_bytes(z, vec![]).for_reply().into_route(),
        SendForReplyRoute::SendBytes { program: z, payload: vec![], value: 0, reply_deposit: 0 }
    );
    assert_eq!(
        send(z, 1u8).with_gas_from_reservation(r).for_reply().with_reply_deposit(12).into_route(),
        SendForReplyRoute::SendFromReservation { reservation_id: r, program: z, payload: 1u8, value: 0, reply_deposit: 12 }
    );
    assert_eq!(
        send_input(z, 0..2).with_gas_limit(3).for_reply_as::<u64>().into_route(),
        SendForReplyRoute::SendInputWithGas { program: z, gas_limit: 3, value: 0, range: 0..2, reply_deposit: 0 }
    );
}

#[test]
fn route_create_program_for_reply_forwards_deposit() {
    let c = CodeId::from([9u8; 32]);
    assert_eq!(
        create_program_bytes(c, vec![1]).with_gas_limit(30).for_reply().with_reply_deposit(7).into_route(),
        CreateProgramForReplyRoute::CreateProgramBytesWithGas {
            code_id: c,
            payload: vec![1],
            gas_limit: 30,
            value: 0,
            reply_deposit: 7,
        }
    );
    assert_eq!(
        create_program(c, 4u8).with_value(2).for_reply_as::<u8>().into_route(),
        CreateProgramForReplyRoute::CreateProgram { code_id: c, payload: 4u8, value: 2, reply_deposit: 0 }
    );
}
