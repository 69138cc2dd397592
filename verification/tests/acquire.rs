use fusion_kbd::usb::{PRODUCT_ID, VENDOR_ID};
use fusion_kbd::{Error, Fault, FusionKBD, Interface, Opening, Progress, Reply, Request, Variant};

/// Feeds `replies` to a fresh acquisition and gives back the calls it asked
/// for and where it stood after the last reply.
fn drive(variant: Variant, replies: &[Reply]) -> (Vec<Request>, Progress) {
    let mut asked = Vec::new();
    let mut progress = Progress::Continue(FusionKBD::new(variant));
    for reply in replies {
        progress = match progress {
            Progress::Continue(opening) => {
                asked.push(opening.request());
                opening.advance(*reply)
            }
            over => over,
        };
    }
    (asked, progress)
}

fn expect_ready(progress: Progress) -> FusionKBD {
    match progress {
        Progress::Ready(kbd) => kbd,
        other => panic!("not ready: {:?}", other),
    }
}

fn expect_pending(progress: Progress) -> Opening {
    match progress {
        Progress::Continue(opening) => opening,
        other => panic!("not under way: {:?}", other),
    }
}

fn expect_failed(progress: Progress) -> (Error, Vec<Request>) {
    match progress {
        Progress::Failed { error, undo } => (error, undo),
        other => panic!("not failed: {:?}", other),
    }
}

const OPEN: Request = Request::Open { vendor: 0x1044, product: 0x7a39 };

#[test]
fn device_identifiers() {
    assert_eq!(VENDOR_ID, 0x1044);
    assert_eq!(PRODUCT_ID, 0x7a39);
    assert_eq!(Interface::Zero.number(), 0);
    assert_eq!(Interface::Three.number(), 3);
}

#[test]
fn acquisition_begins_by_opening_the_device() {
    let opening = FusionKBD::new(Variant::Direct);
    assert_eq!(opening.request(), OPEN);
}

#[test]
fn inactive_driver_on_interface_zero_is_not_detached() {
    let replies = [
        Reply::Done,
        Reply::Active(false),
        Reply::Active(true),
        Reply::Done,
        Reply::Done,
        Reply::Done,
    ];
    let (asked, progress) = drive(Variant::Direct, &replies);
    assert_eq!(
        asked,
        vec![
            OPEN,
            Request::DriverActive(Interface::Zero),
            Request::DriverActive(Interface::Three),
            Request::Detach(Interface::Three),
            Request::Claim(Interface::Zero),
            Request::Claim(Interface::Three),
        ]
    );
    assert!(!asked.contains(&Request::Detach(Interface::Zero)));
    expect_ready(progress);
}

#[test]
fn no_driver_anywhere_detaches_nothing() {
    let replies = [Reply::Done, Reply::Active(false), Reply::Active(false), Reply::Done, Reply::Done];
    let (asked, progress) = drive(Variant::Primed, &replies);
    assert_eq!(
        asked,
        vec![
            OPEN,
            Request::DriverActive(Interface::Zero),
            Request::DriverActive(Interface::Three),
            Request::Claim(Interface::Zero),
            Request::Claim(Interface::Three),
        ]
    );
    assert_eq!(expect_ready(progress).variant(), Variant::Primed);
}

#[test]
fn drivers_on_both_interfaces_are_detached() {
    let replies = [
        Reply::Done,
        Reply::Active(true),
        Reply::Done,
        Reply::Active(true),
        Reply::Done,
        Reply::Done,
        Reply::Done,
    ];
    let (asked, progress) = drive(Variant::Direct, &replies);
    assert_eq!(
        asked,
        vec![
            OPEN,
            Request::DriverActive(Interface::Zero),
            Request::Detach(Interface::Zero),
            Request::DriverActive(Interface::Three),
            Request::Detach(Interface::Three),
            Request::Claim(Interface::Zero),
            Request::Claim(Interface::Three),
        ]
    );
    assert_eq!(expect_ready(progress).variant(), Variant::Direct);
}

#[test]
fn driver_on_interface_zero_only() {
    let replies = [
        Reply::Done,
        Reply::Active(true),
        Reply::Done,
        Reply::Active(false),
        Reply::Done,
        Reply::Done,
    ];
    let (asked, progress) = drive(Variant::Direct, &replies);
    assert_eq!(
        asked,
        vec![
            OPEN,
            Request::DriverActive(Interface::Zero),
            Request::Detach(Interface::Zero),
            Request::DriverActive(Interface::Three),
            Request::Claim(Interface::Zero),
            Request::Claim(Interface::Three),
        ]
    );
    expect_ready(progress);
}

#[test]
fn acquisition_is_not_ready_before_the_last_claim() {
    let replies = [Reply::Done, Reply::Active(false), Reply::Active(false), Reply::Done];
    let (_, progress) = drive(Variant::Direct, &replies);
    let opening = expect_pending(progress);
    assert_eq!(opening.request(), Request::Claim(Interface::Three));
}

#[test]
fn missing_device_is_not_found() {
    let (asked, progress) = drive(Variant::Direct, &[Reply::Failed(Fault::Other)]);
    assert_eq!(asked, vec![OPEN]);
    assert_eq!(expect_failed(progress), (Error::DeviceNotFound, vec![]));
}

#[test]
fn failed_open_is_not_found_whatever_the_fault() {
    for fault in [Fault::Access, Fault::Busy, Fault::Other] {
        let (_, progress) = drive(Variant::Direct, &[Reply::Failed(fault)]);
        assert_eq!(expect_failed(progress), (Error::DeviceNotFound, vec![]));
    }
}

#[test]
fn failed_probe_undoes_nothing() {
    let replies = [Reply::Done, Reply::Failed(Fault::Access)];
    let (_, progress) = drive(Variant::Direct, &replies);
    assert_eq!(expect_failed(progress), (Error::DeviceAccessDenied, vec![]));
}

#[test]
fn failed_detach_of_interface_zero_undoes_nothing() {
    let replies = [Reply::Done, Reply::Active(true), Reply::Failed(Fault::Access)];
    let (asked, progress) = drive(Variant::Direct, &replies);
    assert_eq!(asked.last(), Some(&Request::Detach(Interface::Zero)));
    assert_eq!(expect_failed(progress), (Error::DeviceAccessDenied, vec![]));
}

#[test]
fn failed_probe_of_interface_three_reattaches_zero() {
    let replies = [Reply::Done, Reply::Active(true), Reply::Done, Reply::Failed(Fault::Other)];
    let (_, progress) = drive(Variant::Direct, &replies);
    assert_eq!(
        expect_failed(progress),
        (Error::DeviceAccessDenied, vec![Request::Attach(Interface::Zero)])
    );
}

#[test]
fn failed_detach_of_interface_three_reattaches_zero() {
    let replies = [
        Reply::Done,
        Reply::Active(true),
        Reply::Done,
        Reply::Active(true),
        Reply::Failed(Fault::Busy),
    ];
    let (_, progress) = drive(Variant::Direct, &replies);
    assert_eq!(
        expect_failed(progress),
        (Error::DeviceBusy, vec![Request::Attach(Interface::Zero)])
    );
}

#[test]
fn failed_claim_of_interface_zero_reattaches_both() {
    let replies = [
        Reply::Done,
        Reply::Active(true),
        Reply::Done,
        Reply::Active(true),
        Reply::Done,
        Reply::Failed(Fault::Busy),
    ];
    let (_, progress) = drive(Variant::Direct, &replies);
    assert_eq!(
        expect_failed(progress),
        (
            Error::DeviceBusy,
            vec![Request::Attach(Interface::Zero), Request::Attach(Interface::Three)]
        )
    );
}

#[test]
fn failed_claim_of_interface_three_releases_zero_and_reattaches_both() {
    let replies = [
        Reply::Done,
        Reply::Active(true),
        Reply::Done,
        Reply::Active(true),
        Reply::Done,
        Reply::Done,
        Reply::Failed(Fault::Access),
    ];
    let (_, progress) = drive(Variant::Direct, &replies);
    assert_eq!(
        expect_failed(progress),
        (
            Error::DeviceAccessDenied,
            vec![
                Request::Release(Interface::Zero),
                Request::Attach(Interface::Zero),
                Request::Attach(Interface::Three),
            ]
        )
    );
}

#[test]
fn failed_claim_without_detached_drivers_only_releases() {
    let replies = [
        Reply::Done,
        Reply::Active(false),
        Reply::Active(false),
        Reply::Done,
        Reply::Failed(Fault::Busy),
    ];
    let (_, progress) = drive(Variant::Direct, &replies);
    assert_eq!(
        expect_failed(progress),
        (Error::DeviceBusy, vec![Request::Release(Interface::Zero)])
    );
}

#[test]
fn failed_claim_reattaches_only_what_was_detached() {
    let replies = [
        Reply::Done,
        Reply::Active(false),
        Reply::Active(true),
        Reply::Done,
        Reply::Failed(Fault::Other),
    ];
    let (_, progress) = drive(Variant::Direct, &replies);
    assert_eq!(
        expect_failed(progress),
        (Error::DeviceAccessDenied, vec![Request::Attach(Interface::Three)])
    );
}

#[test]
fn busy_and_denied_are_told_apart() {
    let before = [Reply::Done, Reply::Active(false), Reply::Active(false)];
    for (fault, error) in [
        (Fault::Busy, Error::DeviceBusy),
        (Fault::Access, Error::DeviceAccessDenied),
        (Fault::Other, Error::DeviceAccessDenied),
    ] {
        let mut replies = before.to_vec();
        replies.push(Reply::Failed(fault));
        let (_, progress) = drive(Variant::Direct, &replies);
        assert_eq!(expect_failed(progress).0, error);
    }
}

#[test]
fn reply_of_the_wrong_shape_fails_the_acquisition() {
    // an answer about a driver where the device was to be opened
    let (_, progress) = drive(Variant::Direct, &[Reply::Active(true)]);
    assert_eq!(expect_failed(progress), (Error::DeviceNotFound, vec![]));
    // a bare success where an answer about a driver was due
    let (_, progress) = drive(Variant::Direct, &[Reply::Done, Reply::Done]);
    assert_eq!(expect_failed(progress), (Error::DeviceAccessDenied, vec![]));
    // an answer about a driver where a claim was made
    let replies = [Reply::Done, Reply::Active(false), Reply::Active(false), Reply::Active(false)];
    let (_, progress) = drive(Variant::Direct, &replies);
    assert_eq!(expect_failed(progress), (Error::DeviceAccessDenied, vec![]));
}

#[test]
fn acquisition_is_over_within_seven_replies() {
    let shapes = [Reply::Done, Reply::Active(true), Reply::Active(false), Reply::Failed(Fault::Busy)];
    // every sequence of seven replies of these shapes
    for code in 0..(4usize.pow(7)) {
        let mut replies = Vec::new();
        let mut rest = code;
        for _ in 0..7 {
            replies.push(shapes[rest % 4]);
            rest /= 4;
        }
        let (asked, progress) = drive(Variant::Direct, &replies);
        assert!(!matches!(progress, Progress::Continue(_)));
        assert!(asked.len() <= 7);
        for (i, request) in asked.iter().enumerate() {
            if let Request::Detach(interface) = request {
                assert_eq!(asked[i - 1], Request::DriverActive(*interface));
                assert_eq!(replies[i - 1], Reply::Active(true));
            }
        }
    }
}

#[test]
fn closing_releases_both_interfaces_then_attaches_both_drivers() {
    let replies = [Reply::Done, Reply::Active(false), Reply::Active(false), Reply::Done, Reply::Done];
    let (_, progress) = drive(Variant::Direct, &replies);
    let kbd = expect_ready(progress);
    assert_eq!(
        kbd.close(),
        [
            Request::Release(Interface::Zero),
            Request::Release(Interface::Three),
            Request::Attach(Interface::Zero),
            Request::Attach(Interface::Three),
        ]
    );
}
