//! The network of the isolated process: a veth pair whose root end stays in
//! the daemon's namespace and whose peer end moves into the process's
//! namespace, each end with its own address in one /24. The library decides
//! the names, the addresses and the requests; the daemon talks netlink.

use vstd::prelude::*;

verus! {

/// An end of the veth pair.
#[derive(Debug, Clone, Copy, PartialEq, Eq)]
pub enum VethEnd {
    /// The end that stays in the daemon's network namespace.
    Root,
    /// The end that moves into the isolated process's network namespace.
    Peer,
}

/// An IPv4 address with its prefix length.
#[derive(Debug, Clone, Copy, PartialEq, Eq)]
pub struct Ipv4Cidr {
    pub octets: [u8; 4],
    pub prefix_len: u8,
}

/// The name of an end of the veth pair.
pub open spec fn veth_name_spec(end: VethEnd) -> Seq<char> {
    match end {
        VethEnd::Root => "veth1"@,
        VethEnd::Peer => "veth1-peer"@,
    }
}

/// The address of an end of the veth pair: `10.1.1.1/24` at the root,
/// `10.1.1.2/24` at the peer.
pub open spec fn veth_octets_spec(end: VethEnd) -> Seq<u8> {
    match end {
        VethEnd::Root => seq![10u8, 1u8, 1u8, 1u8],
        VethEnd::Peer => seq![10u8, 1u8, 1u8, 2u8],
    }
}

/// The prefix length of both ends' addresses.
pub open spec fn veth_prefix_len() -> u8 {
    24
}

impl VethEnd {
    /// The interface name of this end.
    pub fn name(&self) -> (name: &'static str)
        ensures
            name@ == veth_name_spec(*self),
    {
        match self {
            VethEnd::Root => "veth1",
            VethEnd::Peer => "veth1-peer",
        }
    }

    /// The address of this end.
    pub fn address(&self) -> (addr: Ipv4Cidr)
        ensures
            addr.octets@ == veth_octets_spec(*self),
            addr.prefix_len == veth_prefix_len(),
    {
        let octets: [u8; 4] = match self {
            VethEnd::Root => [10, 1, 1, 1],
            VethEnd::Peer => [10, 1, 1, 2],
        };
        assert(octets@ =~= veth_octets_spec(*self));
        Ipv4Cidr { octets, prefix_len: 24 }
    }
}

/// The two ends can reach each other directly: their addresses lie in the
/// same /24 network and differ, and the two interfaces have different names.
pub proof fn lemma_veth_ends_share_subnet()
    ensures
        veth_octets_spec(VethEnd::Root).subrange(0, 3) == veth_octets_spec(VethEnd::Peer).subrange(
            0,
            3,
        ),
        veth_prefix_len() == 24,
        veth_octets_spec(VethEnd::Root) != veth_octets_spec(VethEnd::Peer),
        veth_name_spec(VethEnd::Root) != veth_name_spec(VethEnd::Peer),
{
    reveal_strlit("veth1");
    reveal_strlit("veth1-peer");
    assert(veth_octets_spec(VethEnd::Root).subrange(0, 3) =~= veth_octets_spec(
        VethEnd::Peer,
    ).subrange(0, 3));
    assert(veth_octets_spec(VethEnd::Root)[3] != veth_octets_spec(VethEnd::Peer)[3]);
    assert(veth_name_spec(VethEnd::Root).len() != veth_name_spec(VethEnd::Peer).len());
}

/// The root end is `veth1` at 10.1.1.1/24 and the peer end is `veth1-peer`
/// at 10.1.1.2/24.
pub proof fn lemma_veth_ends(end: VethEnd)
    ensures
        end == VethEnd::Root ==> veth_name_spec(end) == "veth1"@ && veth_octets_spec(end) == seq![
            10u8,
            1u8,
            1u8,
            1u8,
        ],
        end == VethEnd::Peer ==> veth_name_spec(end) == "veth1-peer"@ && veth_octets_spec(end)
            == seq![10u8, 1u8, 1u8, 2u8],
        veth_octets_spec(end).len() == 4,
        veth_prefix_len() == 24,
{
}

/// Why a network setup step could not go on.
#[derive(Debug, Clone, Copy, PartialEq, Eq)]
pub enum NetnsError {
    /// The root end was not found when its address was to be set.
    RootAddressLinkMissing,
    /// The peer end was not found when its address was to be set.
    PeerAddressLinkMissing,
    /// The link to move into the process's namespace was not found.
    MoveLinkMissing,
}

/// The message of an error.
pub open spec fn netns_error_text(e: NetnsError) -> Seq<char> {
    match e {
        NetnsError::RootAddressLinkMissing => "error setting root veth IP"@,
        NetnsError::PeerAddressLinkMissing => "error setting root IP"@,
        NetnsError::MoveLinkMissing => "unable to move veth to ns by pid"@,
    }
}

impl NetnsError {
    /// The message of this error.
    pub fn message(&self) -> (msg: String)
        ensures
            msg@ == netns_error_text(*self),
    {
        match self {
            NetnsError::RootAddressLinkMissing => String::from_str("error setting root veth IP"),
            NetnsError::PeerAddressLinkMissing => String::from_str("error setting root IP"),
            NetnsError::MoveLinkMissing => String::from_str("unable to move veth to ns by pid"),
        }
    }
}

/// Each missing link has its own message: the root end's address, the peer
/// end's address, and the move into the namespace.
pub proof fn lemma_netns_error_texts(e: NetnsError)
    ensures
        e == NetnsError::RootAddressLinkMissing ==> netns_error_text(e)
            == "error setting root veth IP"@,
        e == NetnsError::PeerAddressLinkMissing ==> netns_error_text(e) == "error setting root IP"@,
        e == NetnsError::MoveLinkMissing ==> netns_error_text(e)
            == "unable to move veth to ns by pid"@,
{
}

/// The error when an end of the pair is missing as its address is set.
pub open spec fn missing_link_error(end: VethEnd) -> NetnsError {
    match end {
        VethEnd::Root => NetnsError::RootAddressLinkMissing,
        VethEnd::Peer => NetnsError::PeerAddressLinkMissing,
    }
}

/// A request to add `address` to the link with index `index`.
#[derive(Debug, Clone, Copy, PartialEq, Eq)]
pub struct AddressRequest {
    pub index: u32,
    pub address: Ipv4Cidr,
}

/// What to do once the link of an end has been looked up by its name:
/// `link_index` is the index of the link found, or `None` when there was none.
/// A found link gets the end's address; a missing one is an error.
pub fn address_request(end: VethEnd, link_index: Option<u32>) -> (res: Result<
    AddressRequest,
    NetnsError,
>)
    ensures
        match link_index {
            Some(index) => res matches Ok(req) && req.index == index && req.address.octets@
                == veth_octets_spec(end) && req.address.prefix_len == veth_prefix_len(),
            None => res == Err::<AddressRequest, NetnsError>(missing_link_error(end)),
        },
{
    match link_index {
        Some(index) => Ok(AddressRequest { index, address: end.address() }),
        None => match end {
            VethEnd::Root => Err(NetnsError::RootAddressLinkMissing),
            VethEnd::Peer => Err(NetnsError::PeerAddressLinkMissing),
        },
    }
}

/// An attribute of a link change.
#[derive(Debug, Clone, PartialEq, Eq)]
pub enum LinkAttr {
    /// Move the link into the network namespace of this file descriptor.
    NetNsFd(i32),
    /// The name the link keeps.
    IfName(String),
}

/// The text of a [`LinkAttr`].
pub enum LinkAttrView {
    NetNsFd(i32),
    IfName(Seq<char>),
}

impl View for LinkAttr {
    type V = LinkAttrView;

    open spec fn view(&self) -> LinkAttrView {
        match self {
            LinkAttr::NetNsFd(fd) => LinkAttrView::NetNsFd(*fd),
            LinkAttr::IfName(name) => LinkAttrView::IfName(name@),
        }
    }
}

/// A request to change the link with index `index` by `attributes`.
#[derive(Debug, Clone, PartialEq, Eq)]
pub struct MoveRequest {
    pub index: u32,
    pub attributes: Vec<LinkAttr>,
}

/// The attributes that move the link `name` into the namespace of `ns_fd`
/// under the same name.
pub open spec fn move_attributes_spec(name: Seq<char>, ns_fd: i32) -> Seq<LinkAttrView> {
    seq![LinkAttrView::NetNsFd(ns_fd), LinkAttrView::IfName(name)]
}

/// Moving a link takes exactly two attributes, whatever the descriptor and
/// the name: first the namespace descriptor, then the link's own name.
pub proof fn lemma_move_attributes(name: Seq<char>, ns_fd: i32)
    ensures
        move_attributes_spec(name, ns_fd).len() == 2,
        move_attributes_spec(name, ns_fd)[0] == LinkAttrView::NetNsFd(ns_fd),
        move_attributes_spec(name, ns_fd)[1] == LinkAttrView::IfName(name),
{
}

/// What to do once the link `veth_name` has been looked up to be moved into
/// the network namespace open at `ns_fd`: a found link (`link_index`) is
/// changed to live in that namespace under its name; a missing one is an error.
pub fn move_request(link_index: Option<u32>, veth_name: &str, ns_fd: i32) -> (res: Result<
    MoveRequest,
    NetnsError,
>)
    ensures
        match link_index {
            Some(index) => res matches Ok(req) && req.index == index
                && req.attributes@.map_values(|a: LinkAttr| a@) == move_attributes_spec(
                veth_name@,
                ns_fd,
            ) && req.attributes@.len() == 2 && req.attributes@[0]@ == LinkAttrView::NetNsFd(
                ns_fd,
            ) && req.attributes@[1]@ == LinkAttrView::IfName(veth_name@),
            None => res matches Err(e) && e == NetnsError::MoveLinkMissing,
        },
{
    match link_index {
        Some(index) => {
            let mut attributes: Vec<LinkAttr> = Vec::new();
            attributes.push(LinkAttr::NetNsFd(ns_fd));
            attributes.push(LinkAttr::IfName(String::from_str(veth_name)));
            assert(attributes@.map_values(|a: LinkAttr| a@) =~= move_attributes_spec(
                veth_name@,
                ns_fd,
            ));
            assert(attributes@[0]@ == LinkAttrView::NetNsFd(ns_fd));
            assert(attributes@[1]@ == LinkAttrView::IfName(veth_name@));
            Ok(MoveRequest { index, attributes })
        },
        None => Err(NetnsError::MoveLinkMissing),
    }
}

} // verus!
