//! The built-in PostgreSQL types that a column can have.

use vstd::prelude::*;

verus! {

/// A built-in PostgreSQL type.
#[derive(Debug, Clone, Copy, PartialEq, Eq, Structural)]
pub enum PgType {
    Bool,
    Bytea,
    Char,
    Name,
    Int8,
    Int2,
    Int2vector,
    Int4,
    Text,
    Oid,
    Tid,
    Xid,
    Cid,
    Oidvector,
    Json,
    Xml,
    Xid8,
    Point,
    Lseg,
    Path,
    Box,
    Polygon,
    Line,
    Float4,
    Float8,
    Unknown,
    Circle,
    Money,
    Macaddr,
    Inet,
    Cidr,
    Macaddr8,
    Aclitem,
    Bpchar,
    Varchar,
    Date,
    Time,
    Timestamp,
    Timestamptz,
    Interval,
    Timetz,
    Bit,
    Varbit,
    Numeric,
    Refcursor,
    Uuid,
    Tsvector,
    Gtsvector,
    Tsquery,
    Jsonb,
    Jsonpath,
    TxidSnapshot,
    Int4range,
    Numrange,
    Tsrange,
    Tstzrange,
    Daterange,
    Int8range,
    Int4multirange,
    Nummultirange,
    Tsmultirange,
    Tstzmultirange,
    Datemultirange,
}

impl PgType {
    /// The object identifier of the type in the catalog.
    pub open spec fn spec_oid(self) -> u32 {
        match self {
            PgType::Bool => 16,
            PgType::Bytea => 17,
            PgType::Char => 18,
            PgType::Name => 19,
            PgType::Int8 => 20,
            PgType::Int2 => 21,
            PgType::Int2vector => 22,
            PgType::Int4 => 23,
            PgType::Text => 25,
            PgType::Oid => 26,
            PgType::Tid => 27,
            PgType::Xid => 28,
            PgType::Cid => 29,
            PgType::Oidvector => 30,
            PgType::Json => 114,
            PgType::Xml => 142,
            PgType::Xid8 => 5069,
            PgType::Point => 600,
            PgType::Lseg => 601,
            PgType::Path => 602,
            PgType::Box => 603,
            PgType::Polygon => 604,
            PgType::Line => 628,
            PgType::Float4 => 700,
            PgType::Float8 => 701,
            PgType::Unknown => 705,
            PgType::Circle => 718,
            PgType::Money => 790,
            PgType::Macaddr => 829,
            PgType::Inet => 869,
            PgType::Cidr => 650,
            PgType::Macaddr8 => 774,
            PgType::Aclitem => 1033,
            PgType::Bpchar => 1042,
            PgType::Varchar => 1043,
            PgType::Date => 1082,
            PgType::Time => 1083,
            PgType::Timestamp => 1114,
            PgType::Timestamptz => 1184,
            PgType::Interval => 1186,
            PgType::Timetz => 1266,
            PgType::Bit => 1560,
            PgType::Varbit => 1562,
            PgType::Numeric => 1700,
            PgType::Refcursor => 1790,
            PgType::Uuid => 2950,
            PgType::Tsvector => 3614,
            PgType::Gtsvector => 3642,
            PgType::Tsquery => 3615,
            PgType::Jsonb => 3802,
            PgType::Jsonpath => 4072,
            PgType::TxidSnapshot => 2970,
            PgType::Int4range => 3904,
            PgType::Numrange => 3906,
            PgType::Tsrange => 3908,
            PgType::Tstzrange => 3910,
            PgType::Daterange => 3912,
            PgType::Int8range => 3926,
            PgType::Int4multirange => 4451,
            PgType::Nummultirange => 4532,
            PgType::Tsmultirange => 4533,
            PgType::Tstzmultirange => 4534,
            PgType::Datemultirange => 4535,
        }
    }

    /// The object identifier of the type in the catalog.
    #[verifier::when_used_as_spec(spec_oid)]
    pub fn oid(self) -> (oid: u32)
        ensures
            oid == self.spec_oid(),
    {
        match self {
            PgType::Bool => 16,
            PgType::Bytea => 17,
            PgType::Char => 18,
            PgType::Name => 19,
            PgType::Int8 => 20,
            PgType::Int2 => 21,
            PgType::Int2vector => 22,
            PgType::Int4 => 23,
            PgType::Text => 25,
            PgType::Oid => 26,
            PgType::Tid => 27,
            PgType::Xid => 28,
            PgType::Cid => 29,
            PgType::Oidvector => 30,
            PgType::Json => 114,
            PgType::Xml => 142,
            PgType::Xid8 => 5069,
            PgType::Point => 600,
            PgType::Lseg => 601,
            PgType::Path => 602,
            PgType::Box => 603,
            PgType::Polygon => 604,
            PgType::Line => 628,
            PgType::Float4 => 700,
            PgType::Float8 => 701,
            PgType::Unknown => 705,
            PgType::Circle => 718,
            PgType::Money => 790,
            PgType::Macaddr => 829,
            PgType::Inet => 869,
            PgType::Cidr => 650,
            PgType::Macaddr8 => 774,
            PgType::Aclitem => 1033,
            PgType::Bpchar => 1042,
            PgType::Varchar => 1043,
            PgType::Date => 1082,
            PgType::Time => 1083,
            PgType::Timestamp => 1114,
            PgType::Timestamptz => 1184,
            PgType::Interval => 1186,
            PgType::Timetz => 1266,
            PgType::Bit => 1560,
            PgType::Varbit => 1562,
            PgType::Numeric => 1700,
            PgType::Refcursor => 1790,
            PgType::Uuid => 2950,
            PgType::Tsvector => 3614,
            PgType::Gtsvector => 3642,
            PgType::Tsquery => 3615,
            PgType::Jsonb => 3802,
            PgType::Jsonpath => 4072,
            PgType::TxidSnapshot => 2970,
            PgType::Int4range => 3904,
            PgType::Numrange => 3906,
            PgType::Tsrange => 3908,
            PgType::Tstzrange => 3910,
            PgType::Daterange => 3912,
            PgType::Int8range => 3926,
            PgType::Int4multirange => 4451,
            PgType::Nummultirange => 4532,
            PgType::Tsmultirange => 4533,
            PgType::Tstzmultirange => 4534,
            PgType::Datemultirange => 4535,
        }
    }
}

/// The type with the given object identifier, if it is one of these.
pub open spec fn type_of_oid(value: u32) -> Option<PgType> {
    match value {
        16 => Some(PgType::Bool),
        17 => Some(PgType::Bytea),
        18 => Some(PgType::Char),
        19 => Some(PgType::Name),
        20 => Some(PgType::Int8),
        21 => Some(PgType::Int2),
        22 => Some(PgType::Int2vector),
        23 => Some(PgType::Int4),
        25 => Some(PgType::Text),
        26 => Some(PgType::Oid),
        27 => Some(PgType::Tid),
        28 => Some(PgType::Xid),
        29 => Some(PgType::Cid),
        30 => Some(PgType::Oidvector),
        114 => Some(PgType::Json),
        142 => Some(PgType::Xml),
        5069 => Some(PgType::Xid8),
        600 => Some(PgType::Point),
        601 => Some(PgType::Lseg),
        602 => Some(PgType::Path),
        603 => Some(PgType::Box),
        604 => Some(PgType::Polygon),
        628 => Some(PgType::Line),
        700 => Some(PgType::Float4),
        701 => Some(PgType::Float8),
        705 => Some(PgType::Unknown),
        718 => Some(PgType::Circle),
        790 => Some(PgType::Money),
        829 => Some(PgType::Macaddr),
        869 => Some(PgType::Inet),
        650 => Some(PgType::Cidr),
        774 => Some(PgType::Macaddr8),
        1033 => Some(PgType::Aclitem),
        1042 => Some(PgType::Bpchar),
        1043 => Some(PgType::Varchar),
        1082 => Some(PgType::Date),
        1083 => Some(PgType::Time),
        1114 => Some(PgType::Timestamp),
        1184 => Some(PgType::Timestamptz),
        1186 => Some(PgType::Interval),
        1266 => Some(PgType::Timetz),
        1560 => Some(PgType::Bit),
        1562 => Some(PgType::Varbit),
        1700 => Some(PgType::Numeric),
        1790 => Some(PgType::Refcursor),
        2950 => Some(PgType::Uuid),
        3614 => Some(PgType::Tsvector),
        3642 => Some(PgType::Gtsvector),
        3615 => Some(PgType::Tsquery),
        3802 => Some(PgType::Jsonb),
        4072 => Some(PgType::Jsonpath),
        2970 => Some(PgType::TxidSnapshot),
        3904 => Some(PgType::Int4range),
        3906 => Some(PgType::Numrange),
        3908 => Some(PgType::Tsrange),
        3910 => Some(PgType::Tstzrange),
        3912 => Some(PgType::Daterange),
        3926 => Some(PgType::Int8range),
        4451 => Some(PgType::Int4multirange),
        4532 => Some(PgType::Nummultirange),
        4533 => Some(PgType::Tsmultirange),
        4534 => Some(PgType::Tstzmultirange),
        4535 => Some(PgType::Datemultirange),
        _ => None,
    }
}

impl TryFrom<u32> for PgType {
    type Error = ();

    /// The type with the given object identifier, if it is one of these.
    fn try_from(value: u32) -> (pg_type: Result<PgType, ()>) {
        match value {
            16 => Ok(PgType::Bool),
            17 => Ok(PgType::Bytea),
            18 => Ok(PgType::Char),
            19 => Ok(PgType::Name),
            20 => Ok(PgType::Int8),
            21 => Ok(PgType::Int2),
            22 => Ok(PgType::Int2vector),
            23 => Ok(PgType::Int4),
            25 => Ok(PgType::Text),
            26 => Ok(PgType::Oid),
            27 => Ok(PgType::Tid),
            28 => Ok(PgType::Xid),
            29 => Ok(PgType::Cid),
            30 => Ok(PgType::Oidvector),
            114 => Ok(PgType::Json),
            142 => Ok(PgType::Xml),
            5069 => Ok(PgType::Xid8),
            600 => Ok(PgType::Point),
            601 => Ok(PgType::Lseg),
            602 => Ok(PgType::Path),
            603 => Ok(PgType::Box),
            604 => Ok(PgType::Polygon),
            628 => Ok(PgType::Line),
            700 => Ok(PgType::Float4),
            701 => Ok(PgType::Float8),
            705 => Ok(PgType::Unknown),
            718 => Ok(PgType::Circle),
            790 => Ok(PgType::Money),
            829 => Ok(PgType::Macaddr),
            869 => Ok(PgType::Inet),
            650 => Ok(PgType::Cidr),
            774 => Ok(PgType::Macaddr8),
            1033 => Ok(PgType::Aclitem),
            1042 => Ok(PgType::Bpchar),
            1043 => Ok(PgType::Varchar),
            1082 => Ok(PgType::Date),
            1083 => Ok(PgType::Time),
            1114 => Ok(PgType::Timestamp),
            1184 => Ok(PgType::Timestamptz),
            1186 => Ok(PgType::Interval),
            1266 => Ok(PgType::Timetz),
            1560 => Ok(PgType::Bit),
            1562 => Ok(PgType::Varbit),
            1700 => Ok(PgType::Numeric),
            1790 => Ok(PgType::Refcursor),
            2950 => Ok(PgType::Uuid),
            3614 => Ok(PgType::Tsvector),
            3642 => Ok(PgType::Gtsvector),
            3615 => Ok(PgType::Tsquery),
            3802 => Ok(PgType::Jsonb),
            4072 => Ok(PgType::Jsonpath),
            2970 => Ok(PgType::TxidSnapshot),
            3904 => Ok(PgType::Int4range),
            3906 => Ok(PgType::Numrange),
            3908 => Ok(PgType::Tsrange),
            3910 => Ok(PgType::Tstzrange),
            3912 => Ok(PgType::Daterange),
            3926 => Ok(PgType::Int8range),
            4451 => Ok(PgType::Int4multirange),
            4532 => Ok(PgType::Nummultirange),
            4533 => Ok(PgType::Tsmultirange),
            4534 => Ok(PgType::Tstzmultirange),
            4535 => Ok(PgType::Datemultirange),
            _ => Err(()),
        }
    }
}

impl vstd::std_specs::convert::TryFromSpecImpl<u32> for PgType {
    open spec fn obeys_try_from_spec() -> bool {
        true
    }

    open spec fn try_from_spec(value: u32) -> Result<PgType, ()> {
        match type_of_oid(value) {
            Some(pg_type) => Ok(pg_type),
            None => Err(()),
        }
    }
}

/// A type is found again from its identifier, and nothing else is found there: no
/// two types have the same one.
pub proof fn law_oids_are_distinct(a: PgType, b: PgType, value: u32)
    ensures
        a.oid() == b.oid() ==> a == b,
        type_of_oid(a.oid()) == Some(a),
        type_of_oid(value) == Some(b) <==> b.oid() == value,
{
}

/// The identifiers of the built-in types in the catalog of PostgreSQL.
pub proof fn law_the_catalog_of_types()
    ensures
        PgType::Bool.oid() == 16,
        PgType::Bytea.oid() == 17,
        PgType::Char.oid() == 18,
        PgType::Name.oid() == 19,
        PgType::Int8.oid() == 20,
        PgType::Int2.oid() == 21,
        PgType::Int2vector.oid() == 22,
        PgType::Int4.oid() == 23,
        PgType::Text.oid() == 25,
        PgType::Oid.oid() == 26,
        PgType::Tid.oid() == 27,
        PgType::Xid.oid() == 28,
        PgType::Cid.oid() == 29,
        PgType::Oidvector.oid() == 30,
        PgType::Json.oid() == 114,
        PgType::Xml.oid() == 142,
        PgType::Xid8.oid() == 5069,
        PgType::Point.oid() == 600,
        PgType::Lseg.oid() == 601,
        PgType::Path.oid() == 602,
        PgType::Box.oid() == 603,
        PgType::Polygon.oid() == 604,
        PgType::Line.oid() == 628,
        PgType::Float4.oid() == 700,
        PgType::Float8.oid() == 701,
        PgType::Unknown.oid() == 705,
        PgType::Circle.oid() == 718,
        PgType::Money.oid() == 790,
        PgType::Macaddr.oid() == 829,
        PgType::Inet.oid() == 869,
        PgType::Cidr.oid() == 650,
        PgType::Macaddr8.oid() == 774,
        PgType::Aclitem.oid() == 1033,
        PgType::Bpchar.oid() == 1042,
        PgType::Varchar.oid() == 1043,
        PgType::Date.oid() == 1082,
        PgType::Time.oid() == 1083,
        PgType::Timestamp.oid() == 1114,
        PgType::Timestamptz.oid() == 1184,
        PgType::Interval.oid() == 1186,
        PgType::Timetz.oid() == 1266,
        PgType::Bit.oid() == 1560,
        PgType::Varbit.oid() == 1562,
        PgType::Numeric.oid() == 1700,
        PgType::Refcursor.oid() == 1790,
        PgType::Uuid.oid() == 2950,
        PgType::Tsvector.oid() == 3614,
        PgType::Gtsvector.oid() == 3642,
        PgType::Tsquery.oid() == 3615,
        PgType::Jsonb.oid() == 3802,
        PgType::Jsonpath.oid() == 4072,
        PgType::TxidSnapshot.oid() == 2970,
        PgType::Int4range.oid() == 3904,
        PgType::Numrange.oid() == 3906,
        PgType::Tsrange.oid() == 3908,
        PgType::Tstzrange.oid() == 3910,
        PgType::Daterange.oid() == 3912,
        PgType::Int8range.oid() == 3926,
        PgType::Int4multirange.oid() == 4451,
        PgType::Nummultirange.oid() == 4532,
        PgType::Tsmultirange.oid() == 4533,
        PgType::Tstzmultirange.oid() == 4534,
        PgType::Datemultirange.oid() == 4535,
{
}

} // verus!
