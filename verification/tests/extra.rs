use mercy::errors::MercyError;
use mercy::{defang, mercy_extra, mercy_extra_plan, system_info, ExtraPlan, NetEvent};

#[test]
fn defang_known_values() {
    assert_eq!(defang("1.2.3.4"), "1[.]2[.]3[.]4".to_string());
    assert_eq!(defang(""), "".to_string());
    assert_eq!(defang("no-dots"), "no-dots".to_string());
}

#[test]
fn defang_url() {
    assert_eq!(defang("www.example.com"), "www[.]example[.]com".to_string());
}

#[test]
fn extra_defang_dispatch() {
    let r = mercy_extra("defang", "8.8.8.8", &NetEvent::NoData);
    assert_eq!(r, Ok("8[.]8[.]8[.]8".to_string()));
}

#[test]
fn extra_internal_ip_uses_the_discovered_address() {
    let event = NetEvent::LocalAddr("192.168.0.7".to_string());
    assert_eq!(mercy_extra("internal_ip", "", &event), Ok("192.168.0.7".to_string()));
    assert_eq!(mercy_extra("internal_ip", "", &NetEvent::NoData), Err(MercyError::NetworkError));
}

#[test]
fn extra_whois_decodes_the_reply() {
    let reply = NetEvent::WhoisReply(b"Domain Name: EXAMPLE.COM\r\n".to_vec());
    assert_eq!(
        mercy_extra("whois", "example.com", &reply),
        Ok("Domain Name: EXAMPLE.COM\r\n".to_string())
    );
    let broken = NetEvent::WhoisReply(vec![0xff, 0xfe, 0x00]);
    assert_eq!(mercy_extra("whois", "example.com", &broken), Err(MercyError::ParseError));
    assert_eq!(mercy_extra("whois", "example.com", &NetEvent::NoData), Err(MercyError::NetworkError));
}

#[test]
fn extra_rejects_unknown_call() {
    assert_eq!(mercy_extra("teleport", "", &NetEvent::NoData), Err(MercyError::UnsupportedOperation));
}

#[test]
fn plan_names_the_outside_step() {
    assert!(matches!(mercy_extra_plan("internal_ip", ""), ExtraPlan::DiscoverLocalAddr));
    assert!(matches!(mercy_extra_plan("defang", "1.2.3.4"), ExtraPlan::NoOutsideWork));
    assert!(matches!(mercy_extra_plan("system_info", "all"), ExtraPlan::NoOutsideWork));
    match mercy_extra_plan("whois", "example.com") {
        ExtraPlan::SendWhois(q) => assert_eq!(q, "example.com\r\n".to_string()),
        _ => panic!("whois needs an outside step"),
    }
}

#[test]
fn system_info_rows_carry_their_labels() {
    match system_info("hostname") {
        Ok(s) => assert!(s.starts_with("Hostname: ")),
        Err(e) => assert_eq!(e, MercyError::IoError),
    }
    match system_info("cpu_cores") {
        Ok(s) => {
            assert!(s.starts_with("Number of CPU cores: "));
            assert!(s["Number of CPU cores: ".len()..].chars().all(|c| c.is_ascii_digit()));
        },
        Err(e) => assert_eq!(e, MercyError::IoError),
    }
    match system_info("all") {
        Ok(s) => assert!(s.starts_with("\nHostname: ")),
        Err(e) => assert_eq!(e, MercyError::IoError),
    }
}

#[test]
fn system_info_rejects_unknown_selector() {
    assert_eq!(system_info("bogus"), Err(MercyError::UnsupportedOperation));
    assert_eq!(
        mercy_extra("system_info", "bogus", &NetEvent::NoData),
        Err(MercyError::UnsupportedOperation)
    );
}
