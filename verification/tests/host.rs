use counter_pallet::{ensure_root, ensure_signed, Origin};
use polkadot_sdk_frame::deps::frame_system::{self, RawOrigin};

struct Outer(RawOrigin<u64>);

impl From<Outer> for Result<RawOrigin<u64>, Outer> {
    fn from(outer: Outer) -> Self {
        Ok(outer.0)
    }
}

fn tier(raw: &RawOrigin<u64>) -> Origin {
    match raw {
        RawOrigin::Root => Origin::Root,
        RawOrigin::Signed(who) => Origin::Signed(*who),
        RawOrigin::None => Origin::Other,
    }
}

#[test]
fn origin_checks_answer_as_the_host_does() {
    let origins = [
        RawOrigin::Root,
        RawOrigin::Signed(0),
        RawOrigin::Signed(1),
        RawOrigin::Signed(u64::MAX),
        RawOrigin::None,
    ];
    for raw in origins {
        let origin = tier(&raw);
        assert_eq!(
            ensure_root(origin).is_ok(),
            frame_system::ensure_root(Outer(raw.clone())).is_ok()
        );
        assert_eq!(ensure_signed(origin).ok(), frame_system::ensure_signed(Outer(raw)).ok());
    }
}
