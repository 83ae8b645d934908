//! Images, point clouds and laser scans.
//!
//! The payload of a sampled image or point cloud is always empty, whatever
//! dimensions the message declares: the dimensions are drawn on their own and
//! are not meant to agree with the payload.

use crate::entropy::{uniform_bool, uniform_in_range, uniform_u32};
use crate::primitives::{
    all_drawn, empty_bytes, is_alphanumeric_text, random_scalars, random_string,
};
use crate::std_msgs::{Header, SampleError};
use vstd::prelude::*;

verus! {

/// The number of characters in a sampled encoding name.
pub const ENCODING_LENGTH: usize = 32;

/// The number of characters in the name of a sampled point field.
pub const FIELD_NAME_LENGTH: usize = 32;

/// The number of fields in a sampled point cloud.
pub const POINT_FIELD_COUNT: usize = 3;

/// The number of ranges, and of intensities, in a sampled laser scan.
pub const SCAN_LENGTH: usize = 1024;

/// The type of the values in one channel of a point cloud.
#[derive(Clone, Copy, Debug, PartialEq, Eq)]
pub enum DataType {
    Int8,
    Uint8,
    Int16,
    Uint16,
    Int32,
    Uint32,
    Float32,
    Float64,
}

/// The variant that stands at `index`: the eight variants are numbered from 0
/// in the order of their declaration, and every other index gives the first.
pub open spec fn variant_at(index: int) -> DataType {
    if index == 1 {
        DataType::Uint8
    } else if index == 2 {
        DataType::Int16
    } else if index == 3 {
        DataType::Uint16
    } else if index == 4 {
        DataType::Int32
    } else if index == 5 {
        DataType::Uint32
    } else if index == 6 {
        DataType::Float32
    } else if index == 7 {
        DataType::Float64
    } else {
        DataType::Int8
    }
}

/// The index at which a variant stands.
pub open spec fn index_of(datatype: DataType) -> int {
    match datatype {
        DataType::Int8 => 0,
        DataType::Uint8 => 1,
        DataType::Int16 => 2,
        DataType::Uint16 => 3,
        DataType::Int32 => 4,
        DataType::Uint32 => 5,
        DataType::Float32 => 6,
        DataType::Float64 => 7,
    }
}

/// Every variant stands at an index from 0 to 7, and `variant_at` finds it
/// there.
pub proof fn lemma_variant_stands_at_its_index(datatype: DataType)
    ensures
        0 <= index_of(datatype) <= 7,
        variant_at(index_of(datatype)) == datatype,
{
}

/// No two indices from 0 to 7 give the same variant: the index of the
/// variant at `index` is `index` again.
pub proof fn lemma_index_is_kept(index: int)
    requires
        0 <= index <= 7,
    ensures
        index_of(variant_at(index)) == index,
{
}

impl DataType {
    /// The variant at `index`. An index outside 0 to 7 gives `Int8`.
    pub fn from_index(index: i32) -> (datatype: DataType)
        ensures
            datatype == variant_at(index as int),
    {
        match index {
            0 => DataType::Int8,
            1 => DataType::Uint8,
            2 => DataType::Int16,
            3 => DataType::Uint16,
            4 => DataType::Int32,
            5 => DataType::Uint32,
            6 => DataType::Float32,
            7 => DataType::Float64,
            _ => DataType::Int8,
        }
    }

    /// One of the eight variants, picked by a uniform draw of its index from
    /// 0 to 7. The draw never leaves that range, so the variant returned is
    /// the one numbered by the draw.
    pub fn sample() -> (datatype: DataType)
        ensures
            exists|index: int| 0 <= index <= 7 && datatype == #[trigger] variant_at(index),
    {
        let index: i32 = uniform_in_range(0, 7);
        DataType::from_index(index)
    }
}

/// One named, typed channel in the layout of a point.
#[derive(Clone, Debug, PartialEq, Eq)]
pub struct PointField {
    pub name: String,
    pub offset: u32,
    pub datatype: DataType,
    pub count: u32,
}

impl PointField {
    /// What every sampled field satisfies: a name of thirty-two alphanumeric
    /// characters.
    pub open spec fn is_fixture(&self) -> bool {
        is_alphanumeric_text(self.name@, FIELD_NAME_LENGTH as nat)
    }

    /// The field with the given offset, data type and count, under a random
    /// name.
    pub fn sample_with(offset: u32, datatype: DataType, count: u32) -> (field: PointField)
        ensures
            field.is_fixture(),
            field.offset == offset,
            field.datatype == datatype,
            field.count == count,
    {
        PointField { name: random_string(FIELD_NAME_LENGTH), offset, datatype, count }
    }

    /// A field with a random name, offset, data type and count.
    pub fn sample() -> (field: PointField)
        ensures
            field.is_fixture(),
    {
        let offset: u32 = uniform_u32();
        let datatype = DataType::sample();
        let count: u32 = uniform_u32();
        PointField::sample_with(offset, datatype, count)
    }
}

/// Every element of `fields` is a sampled point field.
pub open spec fn all_fixtures(fields: Seq<PointField>) -> bool {
    forall|i: int| 0 <= i < fields.len() ==> (#[trigger] fields[i]).is_fixture()
}

/// A sequence of `length` point fields, each sampled on its own.
pub fn random_point_fields(length: usize) -> (fields: Vec<PointField>)
    ensures
        fields@.len() == length,
        all_fixtures(fields@),
{
    let mut fields: Vec<PointField> = Vec::new();
    let mut n: usize = 0;
    while n < length
        invariant
            n <= length,
            fields@.len() == n,
            all_fixtures(fields@),
        decreases length - n,
    {
        fields.push(PointField::sample());
        n = n + 1;
    }
    fields
}

/// A picture: its dimensions, the name of its pixel encoding, and its pixels.
#[derive(Clone, Debug, PartialEq, Eq)]
pub struct Image {
    pub header: Header,
    pub height: u32,
    pub width: u32,
    pub encoding: String,
    pub is_bigendian: bool,
    pub step: u32,
    pub data: Vec<u8>,
}

impl Image {
    /// What every sampled image satisfies: a sampled header, an encoding
    /// name of thirty-two alphanumeric characters, and no pixels.
    pub open spec fn is_fixture(&self) -> bool {
        &&& self.header.is_fixture()
        &&& is_alphanumeric_text(self.encoding@, ENCODING_LENGTH as nat)
        &&& self.data@.len() == 0
    }

    /// The image with the given header, dimensions, byte order and row
    /// stride, under a random encoding name and without pixels.
    pub fn sample_with(
        header: Header,
        height: u32,
        width: u32,
        is_bigendian: bool,
        step: u32,
    ) -> (image: Image)
        ensures
            image.header == header,
            image.height == height,
            image.width == width,
            is_alphanumeric_text(image.encoding@, ENCODING_LENGTH as nat),
            image.is_bigendian == is_bigendian,
            image.step == step,
            image.data@.len() == 0,
    {
        let encoding = random_string(ENCODING_LENGTH);
        Image { header, height, width, encoding, is_bigendian, step, data: empty_bytes() }
    }

    /// An image with a sampled header and random dimensions, byte order and
    /// row stride. Fails only as `Header::sample` does.
    pub fn sample() -> (made: Result<Image, SampleError>)
        ensures
            made matches Ok(image) ==> image.is_fixture(),
    {
        match Header::sample() {
            Ok(header) => {
                let height: u32 = uniform_u32();
                let width: u32 = uniform_u32();
                let is_bigendian = uniform_bool();
                let step: u32 = uniform_u32();
                Ok(Image::sample_with(header, height, width, is_bigendian, step))
            },
            Err(error) => Err(error),
        }
    }
}

/// A set of points, each laid out in memory as the fields describe.
#[derive(Clone, Debug, PartialEq, Eq)]
pub struct PointCloud2 {
    pub header: Header,
    pub height: u32,
    pub width: u32,
    pub fields: Vec<PointField>,
    pub is_bigendian: bool,
    pub point_step: u32,
    pub row_step: u32,
    pub data: Vec<u8>,
    pub is_dense: bool,
}

impl PointCloud2 {
    /// What every sampled point cloud satisfies: a sampled header, exactly
    /// three sampled fields, and no points.
    pub open spec fn is_fixture(&self) -> bool {
        &&& self.header.is_fixture()
        &&& self.fields@.len() == POINT_FIELD_COUNT
        &&& all_fixtures(self.fields@)
        &&& self.data@.len() == 0
    }

    /// The point cloud with the given header, dimensions, byte order,
    /// strides and density flag, with three sampled fields and without
    /// points.
    pub fn sample_with(
        header: Header,
        height: u32,
        width: u32,
        is_bigendian: bool,
        point_step: u32,
        row_step: u32,
        is_dense: bool,
    ) -> (cloud: PointCloud2)
        ensures
            cloud.header == header,
            cloud.height == height,
            cloud.width == width,
            cloud.fields@.len() == POINT_FIELD_COUNT,
            all_fixtures(cloud.fields@),
            cloud.is_bigendian == is_bigendian,
            cloud.point_step == point_step,
            cloud.row_step == row_step,
            cloud.data@.len() == 0,
            cloud.is_dense == is_dense,
    {
        let fields = random_point_fields(POINT_FIELD_COUNT);
        PointCloud2 {
            header,
            height,
            width,
            fields,
            is_bigendian,
            point_step,
            row_step,
            data: empty_bytes(),
            is_dense,
        }
    }

    /// A point cloud with a sampled header and random dimensions, byte
    /// order, strides and density flag. Fails only as `Header::sample` does.
    pub fn sample() -> (made: Result<PointCloud2, SampleError>)
        ensures
            made matches Ok(cloud) ==> cloud.is_fixture(),
    {
        match Header::sample() {
            Ok(header) => {
                let height: u32 = uniform_u32();
                let width: u32 = uniform_u32();
                let is_bigendian = uniform_bool();
                let point_step: u32 = uniform_u32();
                let row_step: u32 = uniform_u32();
                let is_dense = uniform_bool();
                Ok(
                    PointCloud2::sample_with(
                        header,
                        height,
                        width,
                        is_bigendian,
                        point_step,
                        row_step,
                        is_dense,
                    ),
                )
            },
            Err(error) => Err(error),
        }
    }
}

/// One sweep of a planar range finder. The scalar type `S` of its angles,
/// times and distances is the caller's.
#[derive(Clone, Debug, PartialEq)]
pub struct LaserScan<S> {
    pub header: Header,
    pub angle_min: S,
    pub angle_max: S,
    pub angle_increment: S,
    pub time_increment: S,
    pub scan_time: S,
    pub range_min: S,
    pub range_max: S,
    pub ranges: Vec<S>,
    pub intensities: Vec<S>,
}

impl<S> LaserScan<S> {
    /// The seven scalars are possible results of `draw`, and so are the
    /// ranges and the intensities, 1024 of each.
    pub open spec fn is_drawn_from<D: Fn() -> S>(&self, draw: D) -> bool {
        &&& draw.ensures((), self.angle_min)
        &&& draw.ensures((), self.angle_max)
        &&& draw.ensures((), self.angle_increment)
        &&& draw.ensures((), self.time_increment)
        &&& draw.ensures((), self.scan_time)
        &&& draw.ensures((), self.range_min)
        &&& draw.ensures((), self.range_max)
        &&& self.ranges@.len() == SCAN_LENGTH
        &&& all_drawn(self.ranges@, draw)
        &&& self.intensities@.len() == SCAN_LENGTH
        &&& all_drawn(self.intensities@, draw)
    }

    /// A sampled header over sampled scan data.
    pub open spec fn is_fixture_of<D: Fn() -> S>(&self, draw: D) -> bool {
        &&& self.header.is_fixture()
        &&& self.is_drawn_from(draw)
    }

    /// A sampled scan under the given header. The seven scalars are drawn in
    /// the order of the fields, then the ranges, then the intensities. No
    /// order is established among them: the least angle, say, may exceed the
    /// greatest.
    pub fn sample_with<D: Fn() -> S>(header: Header, draw: &D) -> (scan: Self)
        requires
            draw.requires(()),
        ensures
            scan.header == header,
            scan.is_drawn_from(*draw),
    {
        let angle_min = draw();
        let angle_max = draw();
        let angle_increment = draw();
        let time_increment = draw();
        let scan_time = draw();
        let range_min = draw();
        let range_max = draw();
        let ranges = random_scalars(SCAN_LENGTH, draw);
        let intensities = random_scalars(SCAN_LENGTH, draw);
        LaserScan {
            header,
            angle_min,
            angle_max,
            angle_increment,
            time_increment,
            scan_time,
            range_min,
            range_max,
            ranges,
            intensities,
        }
    }

    /// A sampled scan under a sampled header. Fails only as `Header::sample`
    /// does.
    pub fn sample<D: Fn() -> S>(draw: &D) -> (made: Result<Self, SampleError>)
        requires
            draw.requires(()),
        ensures
            made matches Ok(scan) ==> scan.is_fixture_of(*draw),
    {
        match Header::sample() {
            Ok(header) => Ok(LaserScan::sample_with(header, draw)),
            Err(error) => Err(error),
        }
    }
}

} // verus!
