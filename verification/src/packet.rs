//! The layered decoders and the tree of headers that they build.

pub mod data_link;
pub mod network;
pub mod transport;

use crate::byte_slice::window::Bytes;
use crate::byte_slice::window::DecodeError;
use vstd::prelude::*;

verus! {

/// What one level of a packet holds.
#[derive(Debug, Default)]
pub enum Layer<'a> {
    /// Nothing at this level.
    #[default]
    NoLayer,
    /// Bytes that belong to no layer.
    Data(Bytes<'a>),
    DataLinkLayer(data_link::DataLinkLayer<'a>),
    NetworkLayer(network::NetworkLayer<'a>),
    TransportLayer(transport::TransportLayer<'a>),
}

/// A level of a packet that knows the level above it.
pub trait LayerTrait {
    fn next_layer(&self) -> &Layer;
}

/// A decoded packet: the tree of its layers, from the data link up.
#[derive(Debug, Default)]
pub struct Packet<'a> {
    pub layer: Layer<'a>,
}

impl<'a> Packet<'a> {
    /// The packet that the frame in `w` decodes to: an Ethernet II frame and
    /// the layers that it carries.
    pub open spec fn spec_decode(w: Bytes<'a>) -> Result<Packet<'a>, DecodeError> {
        match data_link::ETHII::spec_from_bytes(w) {
            Err(e) => Err(e),
            Ok(frame) => Ok(
                Packet { layer: Layer::DataLinkLayer(data_link::DataLinkLayer::ETHII(frame)) },
            ),
        }
    }

    /// Decodes the raw frame that `bytes` holds into the tree of its layers
    /// and moves `bytes` past the headers. Fails, with no tree, when a header
    /// claims more bytes than are left.
    pub fn decode(bytes: &'a mut Bytes) -> (res: Result<Self, DecodeError>)
        ensures
            res == Self::spec_decode(*old(bytes)),
            *final(bytes) == data_link::ETHII::spec_remainder(*old(bytes)),
    {
        let frame = data_link::ETHII::from_bytes(bytes)?;
        Ok(Packet { layer: Layer::DataLinkLayer(data_link::DataLinkLayer::ETHII(frame)) })
    }
}

} // verus!
