use procmand::process::netns::{
    address_request, move_request, AddressRequest, Ipv4Cidr, LinkAttr, MoveRequest, NetnsError,
    VethEnd,
};

#[test]
fn veth_names_and_addresses() {
    assert_eq!(VethEnd::Root.name(), "veth1");
    assert_eq!(VethEnd::Peer.name(), "veth1-peer");
    assert_eq!(VethEnd::Root.address(), Ipv4Cidr { octets: [10, 1, 1, 1], prefix_len: 24 });
    assert_eq!(VethEnd::Peer.address(), Ipv4Cidr { octets: [10, 1, 1, 2], prefix_len: 24 });
}

#[test]
fn veth_ends_share_a_subnet() {
    let r = VethEnd::Root.address();
    let p = VethEnd::Peer.address();
    assert_eq!(r.octets[..3], p.octets[..3]);
    assert_ne!(r.octets, p.octets);
    assert_ne!(VethEnd::Root.name(), VethEnd::Peer.name());
}

#[test]
fn address_request_for_found_link() {
    assert_eq!(
        address_request(VethEnd::Root, Some(7)),
        Ok(AddressRequest { index: 7, address: Ipv4Cidr { octets: [10, 1, 1, 1], prefix_len: 24 } })
    );
    assert_eq!(
        address_request(VethEnd::Peer, Some(3)),
        Ok(AddressRequest { index: 3, address: Ipv4Cidr { octets: [10, 1, 1, 2], prefix_len: 24 } })
    );
}

#[test]
fn address_request_for_missing_link() {
    assert_eq!(address_request(VethEnd::Root, None), Err(NetnsError::RootAddressLinkMissing));
    assert_eq!(address_request(VethEnd::Peer, None), Err(NetnsError::PeerAddressLinkMissing));
}

#[test]
fn error_messages() {
    assert_eq!(NetnsError::RootAddressLinkMissing.message(), "error setting root veth IP");
    assert_eq!(NetnsError::PeerAddressLinkMissing.message(), "error setting root IP");
    assert_eq!(NetnsError::MoveLinkMissing.message(), "unable to move veth to ns by pid");
}

#[test]
fn move_request_for_found_link() {
    assert_eq!(
        move_request(Some(12), "veth1-peer", 9),
        Ok(MoveRequest {
            index: 12,
            attributes: vec![LinkAttr::NetNsFd(9), LinkAttr::IfName("veth1-peer".to_string())],
        })
    );
}

#[test]
fn move_request_for_missing_link() {
    assert_eq!(move_request(None, "veth1-peer", 9), Err(NetnsError::MoveLinkMissing));
}
