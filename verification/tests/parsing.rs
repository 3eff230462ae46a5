use usbip_registry::ident::{BusId, Port, Token, UsbId};
use usbip_registry::listing::{
    ListHostableParsable, ListMountable, ListUnmountable, ListingFormat, HUMAN_PATTERN,
    PARSABLE_PATTERN, PORTS_PATTERN,
};
use usbip_registry::parser::{build_usbid_map_helper, ConfigurationError, RegistryParser};
use usbip_registry::pattern::has_exact_groups;
use usbip_registry::registry::Registry;

fn handles_of<T: Token>(registry: &Registry<T>, id: &str) -> Vec<String> {
    let mut found: Vec<String> = match registry.get(&UsbId(id.to_string())) {
        Some(handles) => handles.iter().map(|h| h.as_str().to_string()).collect(),
        None => Vec::new(),
    };
    found.sort();
    found
}

fn keys_of<T: Token>(registry: &Registry<T>) -> Vec<String> {
    let mut keys = Vec::new();
    let mut i = 0;
    while let Some((id, _)) = registry.entry(i) {
        keys.push(id.as_str().to_string());
        i += 1;
    }
    keys.sort();
    keys
}

#[test]
fn test_find_matching_pairs() {
    let s = "
         1-11: Alcor Micro Corp. : AU9540 Smartcard Reader (058f:9540)
         1-12: Alcor Micro Corp. with : colon in name : AU9540 Smartcard Reader (058f:9540)
         12-1: Alcor Micro Corp. : AU9540 Smartcard Reader (0000:0000) with trick name (058f:9540)
        "
    .to_string();
    println!("{:?}", ListMountable(s).build_usbid_map())
}

#[test]
fn test_port() {
    let s = "
            Port 00: <Port in Use> at Full Speed(12Mbps)
               Yubico.com : Yubikey 4/5 OTP+U2F+CCID (1050:0407)
               3-1 -> unknown host, remote port and remote busid
                   -> remote bus/dev 001/011

            Port 01: <Port in Use> at Full Speed(12Mbps)
               Yubico.com : Yubikey 4/5 OTP+U2F+CCID (1050:0407)
               3-1 -> usbip://nixos-laptop:5000/1-7
                   -> remote bus/dev 001/011
        "
    .to_string();
    println!("{:?}", ListUnmountable(s).build_usbid_map())
}

#[test]
fn human_listing_takes_the_trailing_pair() {
    let s = "
         1-11: Alcor Micro Corp. : AU9540 Smartcard Reader (058f:9540)
         1-12: Alcor Micro Corp. with : colon in name : AU9540 Smartcard Reader (058f:9540)
         12-1: Alcor Micro Corp. : AU9540 Smartcard Reader (0000:0000) with trick name (058f:9540)
        "
    .to_string();
    let registry = ListMountable(s).build_usbid_map().unwrap();
    assert_eq!(keys_of(&registry), vec!["058f:9540".to_string()]);
    assert_eq!(
        handles_of(&registry, "058f:9540"),
        vec!["1-11".to_string(), "1-12".to_string(), "12-1".to_string()]
    );
    assert_eq!(handles_of(&registry, "0000:0000"), Vec::<String>::new());
}

#[test]
fn ports_listing_maps_both_ports() {
    let s = "
            Port 00: <Port in Use> at Full Speed(12Mbps)
               Yubico.com : Yubikey 4/5 OTP+U2F+CCID (1050:0407)
               3-1 -> unknown host, remote port and remote busid
                   -> remote bus/dev 001/011

            Port 01: <Port in Use> at Full Speed(12Mbps)
               Yubico.com : Yubikey 4/5 OTP+U2F+CCID (1050:0407)
               3-1 -> usbip://nixos-laptop:5000/1-7
                   -> remote bus/dev 001/011
        "
    .to_string();
    let registry = ListUnmountable(s).build_usbid_map().unwrap();
    assert_eq!(registry.len(), 1);
    assert_eq!(
        handles_of(&registry, "1050:0407"),
        vec!["00".to_string(), "01".to_string()]
    );
}

#[test]
fn ports_listing_single_record() {
    let s = "Port 00: <Port in Use> at Full Speed(12Mbps)\n   Yubico.com : Yubikey 4/5 OTP+U2F+CCID (1050:0407)\n".to_string();
    let registry = ListUnmountable(s).build_usbid_map().unwrap();
    assert_eq!(keys_of(&registry), vec!["1050:0407".to_string()]);
    assert_eq!(handles_of(&registry, "1050:0407"), vec!["00".to_string()]);
}

#[test]
fn parsable_listing_groups_by_usb_id() {
    let s = "busid=1-11#usbid=058f:9540#\nbusid=1-1#usbid=04f2:b67c#\nbusid=1-8#usbid=04f2:b67c#"
        .to_string();
    let registry = ListHostableParsable(s).build_usbid_map().unwrap();
    assert_eq!(
        keys_of(&registry),
        vec!["04f2:b67c".to_string(), "058f:9540".to_string()]
    );
    assert_eq!(
        handles_of(&registry, "04f2:b67c"),
        vec!["1-1".to_string(), "1-8".to_string()]
    );
    assert_eq!(handles_of(&registry, "058f:9540"), vec!["1-11".to_string()]);
}

#[test]
fn parsable_listing_of_five_devices() {
    let s = "busid=1-11#usbid=058f:9540#
        busid=1-1#usbid=04f2:b67c#
        busid=1-14#usbid=8087:0029#
        busid=1-8#usbid=04f2:b67c#
        busid=1-9#usbid=06cb:00bd#"
        .to_string();
    let registry = ListHostableParsable(s).build_usbid_map().unwrap();
    assert_eq!(registry.len(), 4);
    assert_eq!(handles_of(&registry, "8087:0029"), vec!["1-14".to_string()]);
    assert_eq!(handles_of(&registry, "8087:002"), Vec::<String>::new());
    assert_eq!(
        handles_of(&registry, "04f2:b67c"),
        vec!["1-1".to_string(), "1-8".to_string()]
    );
}

#[test]
fn repeated_line_is_listed_once() {
    let s = "busid=1-1#usbid=04f2:b67c#\nbusid=1-1#usbid=04f2:b67c#\n".to_string();
    let registry = ListHostableParsable(s).build_usbid_map().unwrap();
    assert_eq!(registry.len(), 1);
    assert_eq!(handles_of(&registry, "04f2:b67c"), vec!["1-1".to_string()]);
}

#[test]
fn unmatched_text_gives_an_empty_registry() {
    let registry = ListHostableParsable("no devices here\n".to_string())
        .build_usbid_map()
        .unwrap();
    assert!(registry.is_empty());
    assert_eq!(registry.len(), 0);
    let registry = ListMountable(String::new()).build_usbid_map().unwrap();
    assert!(registry.is_empty());
}

#[test]
fn the_three_patterns_are_accepted() {
    assert!(ListingFormat::LocalParsable.parser().is_ok());
    assert!(ListingFormat::Human.parser().is_ok());
    assert!(ListingFormat::AttachedPorts.parser().is_ok());
    assert_eq!(ListingFormat::LocalParsable.pattern(), PARSABLE_PATTERN);
    assert_eq!(ListingFormat::Human.pattern(), HUMAN_PATTERN);
    assert_eq!(ListingFormat::AttachedPorts.pattern(), PORTS_PATTERN);
    assert_eq!(ListingFormat::AttachedPorts.handle_group(), "port");
    assert_eq!(ListingFormat::Human.handle_group(), "busid");
}

#[test]
fn pattern_without_usbid_group_is_refused() {
    let refused = build_usbid_map_helper("busid=1-1#usbid=04f2:b67c#", r"busid=(?P<busid>.*?)#");
    assert_eq!(refused.err(), Some(ConfigurationError::WrongGroups));
}

#[test]
fn pattern_without_busid_group_is_refused() {
    let refused = build_usbid_map_helper("busid=1-1#usbid=04f2:b67c#", r"usbid=(?P<usbid>.*?)#");
    assert_eq!(refused.err(), Some(ConfigurationError::WrongGroups));
}

#[test]
fn pattern_with_an_extra_group_is_refused() {
    let refused = RegistryParser::new(
        r"busid=(?P<busid>.*?)#usbid=(?P<usbid>.*?)#(?P<rest>.*)",
        "busid",
    );
    assert_eq!(refused.err(), Some(ConfigurationError::WrongGroups));
}

#[test]
fn pattern_for_ports_is_refused_for_bus_ids() {
    let refused = build_usbid_map_helper("", PORTS_PATTERN);
    assert_eq!(refused.err(), Some(ConfigurationError::WrongGroups));
    assert!(RegistryParser::new(PORTS_PATTERN, "port").is_ok());
}

#[test]
fn pattern_that_does_not_compile_is_refused() {
    let refused = build_usbid_map_helper("", r"busid=(?P<busid>.*?#usbid=(?P<usbid>.*?)#");
    assert_eq!(refused.err(), Some(ConfigurationError::InvalidPattern));
}

#[test]
fn unnamed_groups_do_not_count() {
    let registry = build_usbid_map_helper(
        "busid=1-1#usbid=04f2:b67c#",
        r"(busid)=(?P<busid>.*?)#(usbid)=(?P<usbid>.*?)#",
    )
    .unwrap();
    assert_eq!(handles_of(&registry, "04f2:b67c"), vec!["1-1".to_string()]);
}

#[test]
fn match_without_a_capture_is_passed_over() {
    let parser = RegistryParser::new(r"(?:busid=(?P<busid>[^#]*)#)?usbid=(?P<usbid>[^#]*)#", "busid")
        .unwrap();
    let registry: Registry<BusId> = parser.parse("usbid=aaaa:0001#\nbusid=2-1#usbid=bbbb:0002#\n");
    assert_eq!(keys_of(&registry), vec!["bbbb:0002".to_string()]);
    assert_eq!(handles_of(&registry, "bbbb:0002"), vec!["2-1".to_string()]);
}

#[test]
fn parsing_twice_gives_the_same_registry() {
    let s = "busid=1-11#usbid=058f:9540#\nbusid=1-1#usbid=04f2:b67c#\nbusid=1-8#usbid=04f2:b67c#";
    let first = ListHostableParsable(s.to_string()).build_usbid_map().unwrap();
    let second = ListHostableParsable(s.to_string()).build_usbid_map().unwrap();
    assert_eq!(keys_of(&first), keys_of(&second));
    for key in keys_of(&first) {
        assert_eq!(handles_of(&first, &key), handles_of(&second, &key));
    }
    assert!(first == second);
}

#[test]
fn has_exact_groups_compares_sets_of_names() {
    let names = vec![
        None,
        Some("busid".to_string()),
        None,
        Some("usbid".to_string()),
        Some("busid".to_string()),
    ];
    assert!(has_exact_groups(&names, "busid", "usbid"));
    assert!(has_exact_groups(&names, "usbid", "busid"));
    assert!(!has_exact_groups(&names, "port", "usbid"));
    assert!(!has_exact_groups(&vec![None, Some("usbid".to_string())], "busid", "usbid"));
    assert!(!has_exact_groups(&vec![None], "busid", "usbid"));
    assert!(!has_exact_groups(&Vec::new(), "busid", "usbid"));
    assert!(has_exact_groups(&vec![Some("usbid".to_string())], "usbid", "usbid"));
}

#[test]
fn ports_are_ports() {
    let parser = ListingFormat::AttachedPorts.parser().unwrap();
    let registry: Registry<Port> =
        parser.parse("Port 07: <Port in Use> at High Speed(480Mbps)\n  vendor : product (0bda:402e)\n");
    let handles = registry.get(&UsbId("0bda:402e".to_string())).unwrap();
    assert_eq!(handles.len(), 1);
    assert_eq!(handles[0], Port("07".to_string()));
    assert_eq!(handles[0].as_str(), "07");
}
