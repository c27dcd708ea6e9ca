use collator_service::informant::{Chain, OutputFormat};
use collator_service::rpc::{build_rpc, MethodGroup, Registration};

#[test]
fn parachain_lines_begin_with_bold_yellow_name() {
    let format = OutputFormat::for_chain(Chain::Parachain);
    assert!(format.enable_color);
    assert_eq!(format.prefix, "[\u{1b}[1;33mParachain\u{1b}[0m] ");
}

#[test]
fn relaychain_lines_begin_with_bold_blue_name() {
    let format = OutputFormat::for_chain(Chain::Relaychain);
    assert!(format.enable_color);
    assert_eq!(format.prefix, "[\u{1b}[1;34mRelaychain\u{1b}[0m] ");
    assert_ne!(format.prefix, "[Relaychain] ");
}

#[test]
fn dispatch_table_merges_three_groups_under_the_flag() {
    for unsafe_allowed in [false, true] {
        let table = build_rpc(unsafe_allowed);
        assert_eq!(
            table,
            vec![
                Registration { group: MethodGroup::System, unsafe_calls: unsafe_allowed },
                Registration { group: MethodGroup::TransactionPayment, unsafe_calls: unsafe_allowed },
                Registration { group: MethodGroup::RootOfTrust, unsafe_calls: unsafe_allowed },
            ]
        );
        assert_eq!(build_rpc(unsafe_allowed), table);
    }
}

#[test]
fn dispatch_table_names_no_group_twice() {
    let table = build_rpc(true);
    for i in 0..table.len() {
        for j in 0..i {
            assert_ne!(table[i].group, table[j].group);
        }
    }
}
