use gstd_fluent::gstd::{Decode, Encode};
use gstd_fluent::{send, ActorId, SendForReplyRoute};

#[test]
fn decoded_reply_round_trips_through_the_codec() {
    let route = send(ActorId::zero(), String::from("input"))
        .with_value(42)
        .with_gas_limit(1_000_000)
        .for_reply_as::<(i32, Option<bool>)>()
        .into_route();
    assert_eq!(
        route,
        SendForReplyRoute::SendWithGas {
            program: ActorId::zero(),
            payload: String::from("input"),
            gas_limit: 1_000_000,
            value: 42,
            reply_deposit: 0,
        }
    );

    let output: (i32, Option<bool>) = (-42, Some(true));
    let bytes = output.encode();
    let decoded = <(i32, Option<bool>)>::decode(&mut &bytes[..]).expect("decodes");
    assert_eq!(decoded, output);

    let none: (i32, Option<bool>) = (7, None);
    let bytes = none.encode();
    assert_eq!(<(i32, Option<bool>)>::decode(&mut &bytes[..]).expect("decodes"), none);
}
