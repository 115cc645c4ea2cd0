//! Tool parameters: their kinds, and how they are read from a tool's JSON description.

use vstd::prelude::*;
use vstd::string::*;
use vstd::utf8::{
    decode_utf8, decode_utf8_encode_utf8, decode_utf8_split, encode_utf8, encode_utf8_decode_utf8,
    encode_utf8_valid_utf8, is_char_boundary, valid_utf8_split,
};

use crate::json::{
    as_array, as_text, index_key, member, member_text, text_or_empty, texts, texts_of, JsonValue,
};
use crate::numeric::{is_float_literal, is_usize_literal, parses_as_float, parses_as_usize};
use crate::text::{is_blank, split_on, split_seq, str_eq, to_lowercase, trim, trim_seq, unicode_lowercase};

verus! {

/// The kind of value a tool parameter takes.
#[derive(Debug, Clone, Copy, PartialEq, Eq, Structural)]
pub enum ParameterType {
    Boolean,
    String,
    Integer,
    Float,
    VectorAttributeField,
    StringOrNumber,
    ExistingFile,
    ExistingFileOrFloat,
    NewFile,
    FileList,
    Directory,
    OptionList,
}

impl Default for ParameterType {
    fn default() -> (r: ParameterType)
        ensures
            r == ParameterType::String,
    {
        ParameterType::String
    }
}

/// The kind of file a file parameter expects.
#[derive(Debug, Clone, Copy, PartialEq, Eq, Structural)]
pub enum ParameterFileType {
    Any,
    Lidar,
    Raster,
    RasterAndVector,
    Vector,
    Text,
    Html,
    Csv,
    Dat,
}

impl Default for ParameterFileType {
    fn default() -> (r: ParameterFileType)
        ensures
            r == ParameterFileType::Any,
    {
        ParameterFileType::Any
    }
}

/// The geometry a vector file parameter expects.
#[derive(Debug, Clone, Copy, PartialEq, Eq, Structural)]
pub enum VectorGeometryType {
    Any,
    Point,
    Line,
    Polygon,
    LineOrPolygon,
}

impl Default for VectorGeometryType {
    fn default() -> (r: VectorGeometryType)
        ensures
            r == VectorGeometryType::Any,
    {
        VectorGeometryType::Any
    }
}

/// One parameter of a tool, with the value the user has given it so far.
#[derive(Debug)]
pub struct ToolParameter {
    pub name: String,
    pub flags: Vec<String>,
    pub description: String,
    pub parameter_type: ParameterType,
    pub default_value: Option<String>,
    pub optional: bool,
    pub str_value: String,
    pub bool_value: bool,
    /// The index of the chosen option of an option list.
    pub int_value: usize,
    /// The options of an option list.
    pub str_vec_value: Vec<String>,
    file_type: ParameterFileType,
    geometry_type: VectorGeometryType,
}

/// A tool parameter with its strings taken as character sequences.
pub struct ToolParameterView {
    pub name: Seq<char>,
    pub flags: Seq<Seq<char>>,
    pub description: Seq<char>,
    pub parameter_type: ParameterType,
    pub default_value: Option<Seq<char>>,
    pub optional: bool,
    pub str_value: Seq<char>,
    pub bool_value: bool,
    pub int_value: usize,
    pub str_vec_value: Seq<Seq<char>>,
    pub file_type: ParameterFileType,
    pub geometry_type: VectorGeometryType,
}

impl View for ToolParameter {
    type V = ToolParameterView;

    closed spec fn view(&self) -> ToolParameterView {
        ToolParameterView {
            name: self.name@,
            flags: self.flags.deep_view(),
            description: self.description@,
            parameter_type: self.parameter_type,
            default_value: self.default_value.deep_view(),
            optional: self.optional,
            str_value: self.str_value@,
            bool_value: self.bool_value,
            int_value: self.int_value,
            str_vec_value: self.str_vec_value.deep_view(),
            file_type: self.file_type,
            geometry_type: self.geometry_type,
        }
    }
}

/// The views of a list of parameters.
pub open spec fn parameters_view(params: Seq<ToolParameter>) -> Seq<ToolParameterView> {
    params.map_values(|p: ToolParameter| p@)
}

impl Default for ToolParameter {
    fn default() -> (r: ToolParameter)
        ensures
            r@ == (ToolParameterView {
                name: Seq::empty(),
                flags: Seq::empty(),
                description: Seq::empty(),
                parameter_type: ParameterType::String,
                default_value: None,
                optional: false,
                str_value: Seq::empty(),
                bool_value: false,
                int_value: 0,
                str_vec_value: Seq::empty(),
                file_type: ParameterFileType::Any,
                geometry_type: VectorGeometryType::Any,
            }),
    {
        let r = ToolParameter {
            name: String::new(),
            flags: Vec::new(),
            description: String::new(),
            parameter_type: ParameterType::String,
            default_value: None,
            optional: false,
            str_value: String::new(),
            bool_value: false,
            int_value: 0,
            str_vec_value: Vec::new(),
            file_type: ParameterFileType::Any,
            geometry_type: VectorGeometryType::Any,
        };
        assert(r.flags.deep_view() =~= Seq::<Seq<char>>::empty());
        assert(r.str_vec_value.deep_view() =~= Seq::<Seq<char>>::empty());
        r
    }
}

impl ToolParameter {
    /// The kind of file this parameter expects.
    pub fn file_type(&self) -> (r: ParameterFileType)
        ensures
            r == self@.file_type,
    {
        self.file_type
    }

    /// The geometry this parameter expects of a vector file.
    pub fn geometry_type(&self) -> (r: VectorGeometryType)
        ensures
            r == self@.geometry_type,
    {
        self.geometry_type
    }
}

// ---------------------------------------------------------------------------------------
// Names of kinds, as the tool description writes them (lower-cased)
// ---------------------------------------------------------------------------------------

/// The parameter kind that a lower-cased type name in the description stands for.
pub open spec fn parameter_type_named(lowered: Seq<char>) -> ParameterType {
    if lowered == "boolean"@ {
        ParameterType::Boolean
    } else if lowered == "float"@ {
        ParameterType::Float
    } else if lowered == "integer"@ {
        ParameterType::Integer
    } else if lowered == "string"@ {
        ParameterType::String
    } else if lowered == "directory"@ {
        ParameterType::Directory
    } else if lowered == "stringornumber"@ {
        ParameterType::StringOrNumber
    } else {
        ParameterType::String
    }
}

/// The file kind that a lower-cased file-type name stands for; `Any` for other names.
pub open spec fn file_type_named(lowered: Seq<char>) -> ParameterFileType {
    if lowered == "lidar"@ {
        ParameterFileType::Lidar
    } else if lowered == "raster"@ {
        ParameterFileType::Raster
    } else if lowered == "text"@ {
        ParameterFileType::Text
    } else if lowered == "html"@ {
        ParameterFileType::Html
    } else if lowered == "csv"@ {
        ParameterFileType::Csv
    } else if lowered == "dat"@ {
        ParameterFileType::Dat
    } else {
        ParameterFileType::Any
    }
}

/// The geometry that a lower-cased geometry name stands for; `Any` for other names.
pub open spec fn geometry_type_named(lowered: Seq<char>) -> VectorGeometryType {
    if lowered == "any"@ {
        VectorGeometryType::Any
    } else if lowered == "point"@ {
        VectorGeometryType::Point
    } else if lowered == "line"@ {
        VectorGeometryType::Line
    } else if lowered == "polygon"@ {
        VectorGeometryType::Polygon
    } else if lowered == "lineorpolygon"@ {
        VectorGeometryType::LineOrPolygon
    } else {
        VectorGeometryType::Any
    }
}

/// The parameter kind for a lower-cased type name.
pub fn parameter_type_from_name(lowered: &str) -> (r: ParameterType)
    ensures
        r == parameter_type_named(lowered@),
{
    if str_eq(lowered, "boolean") {
        ParameterType::Boolean
    } else if str_eq(lowered, "float") {
        ParameterType::Float
    } else if str_eq(lowered, "integer") {
        ParameterType::Integer
    } else if str_eq(lowered, "string") {
        ParameterType::String
    } else if str_eq(lowered, "directory") {
        ParameterType::Directory
    } else if str_eq(lowered, "stringornumber") {
        ParameterType::StringOrNumber
    } else {
        ParameterType::String
    }
}

/// The file kind for a lower-cased file-type name.
pub fn file_type_from_name(lowered: &str) -> (r: ParameterFileType)
    ensures
        r == file_type_named(lowered@),
{
    if str_eq(lowered, "lidar") {
        ParameterFileType::Lidar
    } else if str_eq(lowered, "raster") {
        ParameterFileType::Raster
    } else if str_eq(lowered, "text") {
        ParameterFileType::Text
    } else if str_eq(lowered, "html") {
        ParameterFileType::Html
    } else if str_eq(lowered, "csv") {
        ParameterFileType::Csv
    } else if str_eq(lowered, "dat") {
        ParameterFileType::Dat
    } else {
        ParameterFileType::Any
    }
}

/// The geometry for a lower-cased geometry name.
pub fn geometry_type_from_name(lowered: &str) -> (r: VectorGeometryType)
    ensures
        r == geometry_type_named(lowered@),
{
    if str_eq(lowered, "any") {
        VectorGeometryType::Any
    } else if str_eq(lowered, "point") {
        VectorGeometryType::Point
    } else if str_eq(lowered, "line") {
        VectorGeometryType::Line
    } else if str_eq(lowered, "polygon") {
        VectorGeometryType::Polygon
    } else if str_eq(lowered, "lineorpolygon") {
        VectorGeometryType::LineOrPolygon
    } else {
        VectorGeometryType::Any
    }
}

/// The word the description uses for each kind it names by a string.
pub open spec fn type_word(t: ParameterType) -> Option<Seq<char>> {
    match t {
        ParameterType::Boolean => Some("boolean"@),
        ParameterType::Float => Some("float"@),
        ParameterType::Integer => Some("integer"@),
        ParameterType::String => Some("string"@),
        ParameterType::Directory => Some("directory"@),
        ParameterType::StringOrNumber => Some("stringornumber"@),
        _ => None,
    }
}

/// The word the description uses for each file kind.
pub open spec fn file_word(f: ParameterFileType) -> Option<Seq<char>> {
    match f {
        ParameterFileType::Lidar => Some("lidar"@),
        ParameterFileType::Raster => Some("raster"@),
        ParameterFileType::Text => Some("text"@),
        ParameterFileType::Html => Some("html"@),
        ParameterFileType::Csv => Some("csv"@),
        ParameterFileType::Dat => Some("dat"@),
        _ => None,
    }
}

/// The word the description uses for each geometry.
pub open spec fn geometry_word(g: VectorGeometryType) -> Seq<char> {
    match g {
        VectorGeometryType::Any => "any"@,
        VectorGeometryType::Point => "point"@,
        VectorGeometryType::Line => "line"@,
        VectorGeometryType::Polygon => "polygon"@,
        VectorGeometryType::LineOrPolygon => "lineorpolygon"@,
    }
}

/// Each word of the description names its own kind, file kind and geometry.
pub proof fn law_words_name_their_kinds(t: ParameterType, f: ParameterFileType, g: VectorGeometryType)
    ensures
        type_word(t) matches Some(w) ==> parameter_type_named(w) == t,
        file_word(f) matches Some(w) ==> file_type_named(w) == f,
        geometry_type_named(geometry_word(g)) == g,
{
    reveal_strlit("boolean");
    reveal_strlit("float");
    reveal_strlit("integer");
    reveal_strlit("string");
    reveal_strlit("directory");
    reveal_strlit("stringornumber");
    reveal_strlit("lidar");
    reveal_strlit("raster");
    reveal_strlit("text");
    reveal_strlit("html");
    reveal_strlit("csv");
    reveal_strlit("dat");
    reveal_strlit("any");
    reveal_strlit("point");
    reveal_strlit("line");
    reveal_strlit("polygon");
    reveal_strlit("lineorpolygon");
    assert("boolean"@[0] != "float"@[0]);
    assert("boolean"@[0] != "integer"@[0]);
    assert("boolean"@[0] != "string"@[0]);
    assert("boolean"@[0] != "directory"@[0]);
    assert("boolean"@[0] != "stringornumber"@[0]);
    assert("float"@[0] != "integer"@[0]);
    assert("float"@[0] != "string"@[0]);
    assert("float"@[0] != "directory"@[0]);
    assert("float"@[0] != "stringornumber"@[0]);
    assert("integer"@[0] != "string"@[0]);
    assert("integer"@[0] != "directory"@[0]);
    assert("integer"@[0] != "stringornumber"@[0]);
    assert("string"@[0] != "directory"@[0]);
    assert("string"@.len() != "stringornumber"@.len());
    assert("directory"@[0] != "stringornumber"@[0]);
    assert("lidar"@[0] != "raster"@[0]);
    assert("lidar"@[0] != "text"@[0]);
    assert("lidar"@[0] != "html"@[0]);
    assert("lidar"@[0] != "csv"@[0]);
    assert("lidar"@[0] != "dat"@[0]);
    assert("raster"@[0] != "text"@[0]);
    assert("raster"@[0] != "html"@[0]);
    assert("raster"@[0] != "csv"@[0]);
    assert("raster"@[0] != "dat"@[0]);
    assert("text"@[0] != "html"@[0]);
    assert("text"@[0] != "csv"@[0]);
    assert("text"@[0] != "dat"@[0]);
    assert("html"@[0] != "csv"@[0]);
    assert("html"@[0] != "dat"@[0]);
    assert("csv"@[0] != "dat"@[0]);
    assert("any"@[0] != "point"@[0]);
    assert("any"@[0] != "line"@[0]);
    assert("any"@[0] != "polygon"@[0]);
    assert("any"@[0] != "lineorpolygon"@[0]);
    assert("point"@[2] != "polygon"@[2]);
    assert("point"@[0] != "line"@[0]);
    assert("point"@[0] != "lineorpolygon"@[0]);
    assert("line"@[0] != "polygon"@[0]);
    assert("line"@.len() != "lineorpolygon"@.len());
    assert("polygon"@[0] != "lineorpolygon"@[0]);
}

/// A name as the description's file and geometry entries are compared: trimmed, then
/// lower-cased.
pub open spec fn normalized(s: Seq<char>) -> Seq<char> {
    unicode_lowercase(trim_seq(s))
}

/// Trims, then lower-cases.
pub fn normalize(s: &str) -> (r: String)
    ensures
        r@ == normalized(s@),
{
    let t = trim(s);
    to_lowercase(t.as_str())
}

// ---------------------------------------------------------------------------------------
// Reading parameters from a tool description
// ---------------------------------------------------------------------------------------

/// Whether `v[key]` is something other than `Null`.
pub open spec fn has_entry(v: JsonValue, key: Seq<char>) -> bool {
    !(index_key(v, key) is Null)
}

/// The file kind and geometry that a file-type entry of the description gives: a string
/// names a file kind; an object `{"Vector": g}` or `{"RasterAndVector": g}` names a vector
/// (or raster-or-vector) file of geometry `g`.
pub open spec fn file_kinds(f: JsonValue) -> (ParameterFileType, VectorGeometryType) {
    match f {
        JsonValue::Text(s) => (file_type_named(normalized(s@)), VectorGeometryType::Any),
        JsonValue::Object(_) => if member(f, "Vector"@) is Some {
            match member(f, "Vector"@) {
                Some(JsonValue::Text(g)) => (
                    ParameterFileType::Vector,
                    geometry_type_named(normalized(g@)),
                ),
                _ => (ParameterFileType::Any, VectorGeometryType::Any),
            }
        } else if member(f, "RasterAndVector"@) is Some {
            match member(f, "RasterAndVector"@) {
                Some(JsonValue::Text(g)) => (
                    ParameterFileType::RasterAndVector,
                    geometry_type_named(normalized(g@)),
                ),
                _ => (ParameterFileType::Any, VectorGeometryType::Any),
            }
        } else {
            (ParameterFileType::Any, VectorGeometryType::Any)
        },
        _ => (ParameterFileType::Any, VectorGeometryType::Any),
    }
}

/// The kind that an object-valued `parameter_type` gives: the first of its entries, in
/// this order, that is present and not null.
pub open spec fn object_kind(pt: JsonValue) -> ParameterType {
    if has_entry(pt, "ExistingFile"@) {
        ParameterType::ExistingFile
    } else if has_entry(pt, "NewFile"@) {
        ParameterType::NewFile
    } else if has_entry(pt, "OptionList"@) {
        ParameterType::OptionList
    } else if has_entry(pt, "FileList"@) {
        ParameterType::FileList
    } else if has_entry(pt, "ExistingFileOrFloat"@) {
        ParameterType::ExistingFileOrFloat
    } else if has_entry(pt, "VectorAttributeField"@) {
        ParameterType::VectorAttributeField
    } else {
        ParameterType::String
    }
}

/// The kind that a `parameter_type` entry gives: a string names it (in any case), an
/// object gives it by its entries, anything else is taken as a string parameter.
pub open spec fn parameter_kind(pt: JsonValue) -> ParameterType {
    match pt {
        JsonValue::Text(s) => parameter_type_named(unicode_lowercase(s@)),
        JsonValue::Object(_) => object_kind(pt),
        _ => ParameterType::String,
    }
}

/// The value a parameter starts with: its default, trimmed for numbers, for the string
/// kinds named `float`, `integer`, `string`, `directory` and `stringornumber` and for
/// option lists; empty otherwise.
pub open spec fn initial_str_value(pt: JsonValue, default_value: Option<Seq<char>>) -> Seq<char> {
    match default_value {
        None => Seq::empty(),
        Some(d) => match pt {
            JsonValue::Text(s) => {
                let n = unicode_lowercase(s@);
                if n == "float"@ || n == "integer"@ {
                    trim_seq(d)
                } else if n == "string"@ || n == "directory"@ || n == "stringornumber"@ {
                    d
                } else {
                    Seq::empty()
                }
            },
            JsonValue::Object(_) => if object_kind(pt) == ParameterType::OptionList {
                d
            } else {
                Seq::empty()
            },
            _ => Seq::empty(),
        },
    }
}

/// The flag a parameter starts with: set only for a `boolean` parameter whose default,
/// trimmed and lower-cased, is `true`.
pub open spec fn initial_bool_value(pt: JsonValue, default_value: Option<Seq<char>>) -> bool {
    match (pt, default_value) {
        (JsonValue::Text(s), Some(d)) => unicode_lowercase(s@) == "boolean"@ && unicode_lowercase(
            trim_seq(d),
        ) == "true"@,
        _ => false,
    }
}

/// The options of an option-list parameter; none for other kinds.
pub open spec fn initial_options(pt: JsonValue) -> Seq<Seq<char>> {
    if pt is Object && object_kind(pt) == ParameterType::OptionList {
        texts_of(index_key(pt, "OptionList"@))
    } else {
        Seq::empty()
    }
}

/// The file kind and geometry of a file parameter, read from the entry that gave its kind.
pub open spec fn initial_file_kinds(pt: JsonValue) -> (ParameterFileType, VectorGeometryType) {
    if pt is Object {
        match object_kind(pt) {
            ParameterType::ExistingFile => file_kinds(index_key(pt, "ExistingFile"@)),
            ParameterType::NewFile => file_kinds(index_key(pt, "NewFile"@)),
            ParameterType::FileList => file_kinds(index_key(pt, "FileList"@)),
            ParameterType::ExistingFileOrFloat => file_kinds(index_key(pt, "ExistingFileOrFloat"@)),
            _ => (ParameterFileType::Any, VectorGeometryType::Any),
        }
    } else {
        (ParameterFileType::Any, VectorGeometryType::Any)
    }
}

/// The parameter that one entry of the description's `parameters` array describes.
pub open spec fn parsed_parameter(p: JsonValue) -> ToolParameterView {
    let default_value = as_text(index_key(p, "default_value"@));
    let pt = index_key(p, "parameter_type"@);
    ToolParameterView {
        name: text_or_empty(index_key(p, "name"@)),
        flags: texts_of(index_key(p, "flags"@)),
        description: text_or_empty(index_key(p, "description"@)),
        parameter_type: parameter_kind(pt),
        default_value: default_value,
        optional: match index_key(p, "optional"@) {
            JsonValue::Bool(b) => b,
            _ => false,
        },
        str_value: initial_str_value(pt, default_value),
        bool_value: initial_bool_value(pt, default_value),
        int_value: 0,
        str_vec_value: initial_options(pt),
        file_type: initial_file_kinds(pt).0,
        geometry_type: initial_file_kinds(pt).1,
    }
}

/// The parameters of a tool description: one per element of its `parameters` array, in
/// order; none where there is no such array.
pub open spec fn parsed_parameters(description: JsonValue) -> Seq<ToolParameterView> {
    match as_array(index_key(description, "parameters"@)) {
        Some(items) => items.map_values(|p: JsonValue| parsed_parameter(p)),
        None => Seq::empty(),
    }
}

/// `v[key]`, with `Null` standing in where it is missing.
fn entry<'a>(v: &'a JsonValue, key: &str, null: &'a JsonValue) -> (r: &'a JsonValue)
    requires
        *null is Null,
    ensures
        *r == index_key(*v, key@),
{
    match v.get(key) {
        Some(x) => x,
        None => null,
    }
}

/// Whether `v[key]` is present and not null.
fn entry_present(v: &JsonValue, key: &str) -> (r: bool)
    ensures
        r == has_entry(*v, key@),
{
    v.has_non_null(key)
}

/// The file kind and geometry that a file-type entry gives.
pub fn file_kinds_of(f: &JsonValue) -> (r: (ParameterFileType, VectorGeometryType))
    ensures
        r == file_kinds(*f),
{
    match f {
        JsonValue::Text(s) => {
            let n = normalize(s.as_str());
            (file_type_from_name(n.as_str()), VectorGeometryType::Any)
        },
        JsonValue::Object(_) => {
            match f.get("Vector") {
                Some(JsonValue::Text(g)) => {
                    let n = normalize(g.as_str());
                    (ParameterFileType::Vector, geometry_type_from_name(n.as_str()))
                },
                Some(_) => (ParameterFileType::Any, VectorGeometryType::Any),
                None => match f.get("RasterAndVector") {
                    Some(JsonValue::Text(g)) => {
                        let n = normalize(g.as_str());
                        (ParameterFileType::RasterAndVector, geometry_type_from_name(n.as_str()))
                    },
                    _ => (ParameterFileType::Any, VectorGeometryType::Any),
                },
            }
        },
        _ => (ParameterFileType::Any, VectorGeometryType::Any),
    }
}

/// The kind an object-valued `parameter_type` gives.
fn object_kind_of(pt: &JsonValue) -> (r: ParameterType)
    ensures
        r == object_kind(*pt),
{
    if entry_present(pt, "ExistingFile") {
        ParameterType::ExistingFile
    } else if entry_present(pt, "NewFile") {
        ParameterType::NewFile
    } else if entry_present(pt, "OptionList") {
        ParameterType::OptionList
    } else if entry_present(pt, "FileList") {
        ParameterType::FileList
    } else if entry_present(pt, "ExistingFileOrFloat") {
        ParameterType::ExistingFileOrFloat
    } else if entry_present(pt, "VectorAttributeField") {
        ParameterType::VectorAttributeField
    } else {
        ParameterType::String
    }
}

/// Reads one parameter from its entry in the description.
pub fn parse_parameter(p: &JsonValue) -> (r: ToolParameter)
    ensures
        r@ == parsed_parameter(*p),
{
    let null = JsonValue::Null;
    let name = member_text(p, "name");
    let flags = texts(entry(p, "flags", &null));
    let description = member_text(p, "description");
    let default_value: Option<String> = match entry(p, "default_value", &null).as_str() {
        Some(d) => Some(d.to_owned()),
        None => None,
    };
    let optional = match entry(p, "optional", &null).as_bool() {
        Some(b) => b,
        None => false,
    };
    let pt = entry(p, "parameter_type", &null);
    let mut str_value = String::new();
    let mut bool_value = false;
    let mut str_vec_value: Vec<String> = Vec::new();
    let mut file_type = ParameterFileType::Any;
    let mut geometry_type = VectorGeometryType::Any;
    let parameter_type = match pt {
        JsonValue::Text(s) => {
            let lowered = to_lowercase(s.as_str());
            let kind = parameter_type_from_name(lowered.as_str());
            // The type names are told apart by their first letters.
            proof {
                reveal_strlit("boolean");
                reveal_strlit("float");
                reveal_strlit("integer");
                reveal_strlit("string");
                reveal_strlit("directory");
                reveal_strlit("stringornumber");
                assert("boolean"@[0] != "float"@[0]);
                assert("boolean"@[0] != "integer"@[0]);
                assert("boolean"@[0] != "string"@[0]);
                assert("boolean"@[0] != "directory"@[0]);
                assert("boolean"@[0] != "stringornumber"@[0]);
                assert("string"@[0] != "float"@[0]);
                assert("string"@[0] != "integer"@[0]);
                assert("directory"@[0] != "float"@[0]);
                assert("directory"@[0] != "integer"@[0]);
            }
            match &default_value {
                Some(d) => {
                    if str_eq(lowered.as_str(), "boolean") {
                        let flag = normalize(d.as_str());
                        bool_value = str_eq(flag.as_str(), "true");
                    } else if str_eq(lowered.as_str(), "float") || str_eq(
                        lowered.as_str(),
                        "integer",
                    ) {
                        str_value = trim(d.as_str());
                    } else if str_eq(lowered.as_str(), "string") || str_eq(
                        lowered.as_str(),
                        "directory",
                    ) || str_eq(lowered.as_str(), "stringornumber") {
                        str_value = d.as_str().to_owned();
                    }
                },
                None => {},
            }
            kind
        },
        JsonValue::Object(_) => {
            let kind = object_kind_of(pt);
            match kind {
                ParameterType::ExistingFile => {
                    let k = file_kinds_of(entry(pt, "ExistingFile", &null));
                    file_type = k.0;
                    geometry_type = k.1;
                },
                ParameterType::NewFile => {
                    let k = file_kinds_of(entry(pt, "NewFile", &null));
                    file_type = k.0;
                    geometry_type = k.1;
                },
                ParameterType::FileList => {
                    let k = file_kinds_of(entry(pt, "FileList", &null));
                    file_type = k.0;
                    geometry_type = k.1;
                },
                ParameterType::ExistingFileOrFloat => {
                    let k = file_kinds_of(entry(pt, "ExistingFileOrFloat", &null));
                    file_type = k.0;
                    geometry_type = k.1;
                },
                ParameterType::OptionList => {
                    str_vec_value = texts(entry(pt, "OptionList", &null));
                    match &default_value {
                        Some(d) => {
                            str_value = d.as_str().to_owned();
                        },
                        None => {},
                    }
                },
                _ => {},
            }
            kind
        },
        _ => ParameterType::String,
    };
    let r = ToolParameter {
        name,
        flags,
        description,
        parameter_type,
        default_value,
        optional,
        str_value,
        bool_value,
        int_value: 0,
        str_vec_value,
        file_type,
        geometry_type,
    };
    assert(r@.str_vec_value =~= parsed_parameter(*p).str_vec_value);
    r
}

/// Reads the parameters of a tool from its description: one per element of the
/// `parameters` array, in order.
pub fn parse_parameters(description: &JsonValue) -> (r: Vec<ToolParameter>)
    ensures
        parameters_view(r@) == parsed_parameters(*description),
{
    let mut out: Vec<ToolParameter> = Vec::new();
    match description.get("parameters") {
        Some(v) => match v.as_array() {
            Some(items) => {
                let mut i: usize = 0;
                while i < items.len()
                    invariant
                        i <= items@.len(),
                        as_array(index_key(*description, "parameters"@)) == Some(items@),
                        parameters_view(out@) =~= items@.take(i as int).map_values(
                            |p: JsonValue| parsed_parameter(p),
                        ),
                    decreases items.len() - i,
                {
                    let t = parse_parameter(&items[i]);
                    let ghost before = out@;
                    out.push(t);
                    assert(parameters_view(out@) =~= parameters_view(before).push(t@));
                    assert(items@.take(i as int + 1) =~= items@.take(i as int).push(items@[i as int]));
                    i = i + 1;
                }
                assert(items@.take(items@.len() as int) =~= items@);
            },
            None => {},
        },
        None => {},
    }
    proof {
        if as_array(index_key(*description, "parameters"@)) is None {
            assert(parameters_view(out@) =~= Seq::<ToolParameterView>::empty());
        }
    }
    out
}

// ---------------------------------------------------------------------------------------
// Turning a parameter into a command-line argument
// ---------------------------------------------------------------------------------------

/// Why a tool cannot be run with the parameters as they stand.
#[derive(Debug)]
pub enum RunError {
    /// The path of the WhiteboxTools executable is blank.
    MissingExecutable,
    /// A parameter that is not optional has no value; it holds the parameter's name.
    Unspecified(String),
    /// A number parameter holds text that does not parse as its kind of number.
    InvalidNumber(String),
    /// An existing-file parameter names a file that is found neither as given nor in the
    /// working directory.
    FileNotFound(String),
    /// A directory parameter names a directory that is not found; it holds the trimmed name.
    DirectoryNotFound(String),
}

/// A run error with its name taken as characters.
pub enum RunErrorView {
    MissingExecutable,
    Unspecified(Seq<char>),
    InvalidNumber(Seq<char>),
    FileNotFound(Seq<char>),
    DirectoryNotFound(Seq<char>),
}

impl View for RunError {
    type V = RunErrorView;

    open spec fn view(&self) -> RunErrorView {
        match self {
            RunError::MissingExecutable => RunErrorView::MissingExecutable,
            RunError::Unspecified(n) => RunErrorView::Unspecified(n@),
            RunError::InvalidNumber(n) => RunErrorView::InvalidNumber(n@),
            RunError::FileNotFound(n) => RunErrorView::FileNotFound(n@),
            RunError::DirectoryNotFound(n) => RunErrorView::DirectoryNotFound(n@),
        }
    }
}

/// The title of the warning that reports an error.
pub open spec fn error_title(e: RunErrorView) -> Seq<char> {
    match e {
        RunErrorView::MissingExecutable => "Error Running Tool"@,
        _ => "Error Parsing Parameter"@,
    }
}

/// The text of the warning that reports an error.
pub open spec fn error_message(e: RunErrorView) -> Seq<char> {
    match e {
        RunErrorView::MissingExecutable => "The WhiteboxTools executable path does not appear to be set."@,
        RunErrorView::Unspecified(n) => "Unspecified non-optional parameter "@ + n + "."@,
        RunErrorView::InvalidNumber(n) => "Error parsing a non-optional parameter "@ + n + "."@,
        RunErrorView::FileNotFound(n) => "The specified file path does not exist. ("@ + n + ")."@,
        RunErrorView::DirectoryNotFound(n) => "The specified directory does not exist. ("@ + n
            + ")."@,
    }
}

/// `a + b + c` as one string.
pub fn concat3(a: &str, b: &str, c: &str) -> (r: String)
    ensures
        r@ == a@ + b@ + c@,
{
    let mut r = a.to_owned();
    r.append(b);
    r.append(c);
    r
}

impl RunError {
    /// The title of the warning that reports this error.
    pub fn title(&self) -> (r: String)
        ensures
            r@ == error_title(self@),
    {
        match self {
            RunError::MissingExecutable => "Error Running Tool".to_owned(),
            _ => "Error Parsing Parameter".to_owned(),
        }
    }

    /// The text of the warning that reports this error.
    pub fn message(&self) -> (r: String)
        ensures
            r@ == error_message(self@),
    {
        match self {
            RunError::MissingExecutable => "The WhiteboxTools executable path does not appear to be set.".to_owned(),
            RunError::Unspecified(n) => concat3("Unspecified non-optional parameter ", n.as_str(), "."),
            RunError::InvalidNumber(n) => concat3("Error parsing a non-optional parameter ", n.as_str(), "."),
            RunError::FileNotFound(n) => concat3("The specified file path does not exist. (", n.as_str(), ")."),
            RunError::DirectoryNotFound(n) => concat3("The specified directory does not exist. (", n.as_str(), ")."),
        }
    }
}

/// What the file system says of the paths a parameter names, found out before a run.
pub struct PathProbe {
    /// Whether the trimmed value names an existing path.
    pub value_exists: bool,
    /// Whether the trimmed value, joined to the working directory, names an existing path.
    pub value_exists_in_working_dir: bool,
    /// For each entry of the value read as a file list, whether it names an existing path.
    pub entries_exist: Vec<bool>,
}

/// The entries of a file list: its lines, each trimmed.
pub open spec fn file_list_entries_seq(v: Seq<char>) -> Seq<Seq<char>> {
    split_seq(v, '\n').map_values(|x: Seq<char>| trim_seq(x))
}

/// Whether entry `k` of a file list is kept: it is not empty and names an existing file.
pub open spec fn entry_kept(entries: Seq<Seq<char>>, exists: Seq<bool>, k: int) -> bool {
    entries[k].len() > 0 && k < exists.len() && exists[k]
}

/// The kept entries of a file list, quoted, each but the one at line 0 preceded by a comma.
pub open spec fn file_list_items(entries: Seq<Seq<char>>, exists: Seq<bool>) -> Seq<char>
    decreases entries.len(),
{
    if entries.len() == 0 {
        Seq::empty()
    } else {
        let k = entries.len() - 1;
        file_list_items(entries.drop_last(), exists) + if entry_kept(entries, exists, k) {
            (if k > 0 {
                ",'"@
            } else {
                "'"@
            }) + entries[k] + "'"@
        } else {
            Seq::empty()
        }
    }
}

/// Quoted entries, each after the first preceded by a comma.
pub open spec fn comma_joined_quotes(es: Seq<Seq<char>>) -> Seq<char>
    decreases es.len(),
{
    if es.len() == 0 {
        Seq::empty()
    } else if es.len() == 1 {
        "'"@ + es[0] + "'"@
    } else {
        comma_joined_quotes(es.drop_last()) + ",'"@ + es.last() + "'"@
    }
}

/// Where every line of a file list names an existing file, the list passes them all,
/// quoted and separated by commas, in order.
pub proof fn law_existing_files_are_listed_with_commas(entries: Seq<Seq<char>>, exists: Seq<bool>)
    requires
        exists.len() >= entries.len(),
        forall|k: int| 0 <= k < entries.len() ==> (#[trigger] entries[k]).len() > 0 && exists[k],
    ensures
        file_list_text(entries, exists) == "["@ + comma_joined_quotes(entries) + "]"@,
    decreases entries.len(),
{
    lemma_kept_items_are_joined(entries, exists);
}

proof fn lemma_kept_items_are_joined(entries: Seq<Seq<char>>, exists: Seq<bool>)
    requires
        exists.len() >= entries.len(),
        forall|k: int| 0 <= k < entries.len() ==> (#[trigger] entries[k]).len() > 0 && exists[k],
    ensures
        file_list_items(entries, exists) == comma_joined_quotes(entries),
    decreases entries.len(),
{
    if entries.len() > 0 {
        let d = entries.drop_last();
        assert forall|k: int| 0 <= k < d.len() implies (#[trigger] d[k]).len() > 0 && exists[k] by {
            assert(d[k] == entries[k]);
        }
        lemma_kept_items_are_joined(d, exists);
        let k = entries.len() - 1;
        assert(entries[k].len() > 0 && exists[k]);
        if entries.len() == 1 {
            assert(file_list_items(d, exists) =~= Seq::<char>::empty());
        }
    }
}

/// Two files on the first two lines, both existing, are passed as `['a','b']`.
pub proof fn law_two_files_are_separated_by_a_comma(e0: Seq<char>, e1: Seq<char>, exists: Seq<bool>)
    requires
        e0.len() > 0,
        e1.len() > 0,
        exists.len() >= 2,
        exists[0],
        exists[1],
    ensures
        file_list_text(seq![e0, e1], exists) == "["@ + "'"@ + e0 + "'"@ + ",'"@ + e1 + "'"@ + "]"@,
{
    let es = seq![e0, e1];
    assert(es.drop_last() =~= seq![e0]);
    law_existing_files_are_listed_with_commas(es, exists);
    assert(comma_joined_quotes(seq![e0]) == "'"@ + e0 + "'"@);
    assert(comma_joined_quotes(es) == comma_joined_quotes(seq![e0]) + ",'"@ + e1 + "'"@);
    assert(file_list_text(es, exists) =~= "["@ + "'"@ + e0 + "'"@ + ",'"@ + e1 + "'"@ + "]"@);
}

/// The bracketed list that a file-list parameter passes.
pub open spec fn file_list_text(entries: Seq<Seq<char>>, exists: Seq<bool>) -> Seq<char> {
    "["@ + file_list_items(entries, exists) + "]"@
}

/// The contribution of one parameter to the command line.
pub enum Argument {
    /// The parameter adds nothing.
    Omitted,
    /// The parameter adds `arg` to the arguments, and `shown` to the echoed command line.
    Included { arg: String, shown: String },
    /// The parameter stops the run.
    Rejected(RunError),
}

/// An argument with its strings taken as characters.
pub enum ArgumentView {
    Omitted,
    Included { arg: Seq<char>, shown: Seq<char> },
    Rejected(RunErrorView),
}

impl View for Argument {
    type V = ArgumentView;

    open spec fn view(&self) -> ArgumentView {
        match self {
            Argument::Omitted => ArgumentView::Omitted,
            Argument::Included { arg, shown } => ArgumentView::Included { arg: arg@, shown: shown@ },
            Argument::Rejected(e) => ArgumentView::Rejected(e@),
        }
    }
}

/// A parameter can be turned into an argument: it has a flag, and an option list's chosen
/// index lies within its options.
pub open spec fn argument_defined(p: ToolParameterView) -> bool {
    &&& p.flags.len() > 0
    &&& p.parameter_type == ParameterType::OptionList ==> p.int_value < p.str_vec_value.len()
}

/// `flag='value'`.
pub open spec fn quoted(flag: Seq<char>, value: Seq<char>) -> Seq<char> {
    flag + "='"@ + value + "'"@
}

/// An argument shown in the echoed command line as itself after a space.
pub open spec fn included(arg: Seq<char>) -> ArgumentView {
    ArgumentView::Included { arg: arg, shown: " "@ + arg }
}

/// What a parameter without a value contributes: it stops the run where it is required.
pub open spec fn when_blank(p: ToolParameterView) -> ArgumentView {
    if !p.optional {
        ArgumentView::Rejected(RunErrorView::Unspecified(p.name))
    } else {
        ArgumentView::Omitted
    }
}

/// The contribution of a parameter to the command line: its last flag, with its value
/// where the value is needed, checked as its kind asks.
pub open spec fn argument_of(p: ToolParameterView, probe: PathProbe) -> ArgumentView {
    let flag = p.flags.last();
    let v = p.str_value;
    let t = trim_seq(v);
    let blank = t.len() == 0;
    match p.parameter_type {
        ParameterType::Boolean => if p.bool_value {
            included(flag)
        } else {
            ArgumentView::Omitted
        },
        ParameterType::String | ParameterType::VectorAttributeField
        | ParameterType::StringOrNumber | ParameterType::ExistingFileOrFloat => if !blank {
            included(quoted(flag, v))
        } else {
            when_blank(p)
        },
        ParameterType::Integer => if !blank {
            if parses_as_usize(t) {
                included(flag + "="@ + v)
            } else {
                ArgumentView::Rejected(RunErrorView::InvalidNumber(p.name))
            }
        } else {
            when_blank(p)
        },
        ParameterType::Float => if !blank {
            if parses_as_float(t) {
                included(flag + "="@ + v)
            } else {
                ArgumentView::Rejected(RunErrorView::InvalidNumber(p.name))
            }
        } else {
            when_blank(p)
        },
        ParameterType::ExistingFile => if !blank {
            if probe.value_exists || probe.value_exists_in_working_dir {
                ArgumentView::Included { arg: quoted(flag, v), shown: " "@ + quoted(flag, t) }
            } else {
                ArgumentView::Rejected(RunErrorView::FileNotFound(p.name))
            }
        } else {
            when_blank(p)
        },
        ParameterType::NewFile => if !blank {
            ArgumentView::Included { arg: quoted(flag, v), shown: " "@ + quoted(flag, t) }
        } else {
            when_blank(p)
        },
        ParameterType::FileList => if !blank {
            included(flag + "="@ + file_list_text(file_list_entries_seq(v), probe.entries_exist@))
        } else {
            when_blank(p)
        },
        ParameterType::Directory => if !blank {
            if probe.value_exists {
                included(quoted(flag, v))
            } else {
                ArgumentView::Rejected(RunErrorView::DirectoryNotFound(trim_seq(p.name)))
            }
        } else {
            when_blank(p)
        },
        ParameterType::OptionList => included(quoted(flag, p.str_vec_value[p.int_value as int])),
    }
}

/// The entries of a file list: its lines, each trimmed.
pub fn file_list_entries(v: &str) -> (r: Vec<String>)
    ensures
        r.deep_view() == file_list_entries_seq(v@),
{
    let lines = split_on(v, '\n');
    let mut out: Vec<String> = Vec::new();
    let mut i: usize = 0;
    while i < lines.len()
        invariant
            i <= lines@.len(),
            lines.deep_view() == split_seq(v@, '\n'),
            out.deep_view() =~= lines.deep_view().take(i as int).map_values(
                |x: Seq<char>| trim_seq(x),
            ),
        decreases lines.len() - i,
    {
        let t = trim(lines[i].as_str());
        let ghost before = out.deep_view();
        out.push(t);
        assert(out.deep_view() =~= before.push(t@));
        assert(lines.deep_view().take(i as int + 1) =~= lines.deep_view().take(i as int).push(
            lines.deep_view()[i as int],
        ));
        i = i + 1;
    }
    assert(lines.deep_view().take(lines@.len() as int) =~= lines.deep_view());
    out
}

/// The bracketed list of the kept entries of a file list.
pub fn file_list_argument(entries: &Vec<String>, exists: &Vec<bool>) -> (r: String)
    ensures
        r@ == file_list_text(entries.deep_view(), exists@),
{
    let mut items = String::new();
    let mut k: usize = 0;
    assert(entries.deep_view().take(0) =~= Seq::<Seq<char>>::empty());
    while k < entries.len()
        invariant
            k <= entries@.len(),
            items@ == file_list_items(entries.deep_view().take(k as int), exists@),
        decreases entries.len() - k,
    {
        let ghost prefix = entries.deep_view().take(k as int + 1);
        assert(prefix.drop_last() =~= entries.deep_view().take(k as int));
        assert(prefix[k as int] == entries[k as int]@);
        let e = entries[k].as_str();
        let kept = e.unicode_len() > 0 && k < exists.len() && exists[k];
        assert(kept == entry_kept(prefix, exists@, k as int));
        if kept {
            if k > 0 {
                items.append(",'");
            } else {
                items.append("'");
            }
            items.append(e);
            items.append("'");
        }
        assert(items@ =~= file_list_items(prefix, exists@));
        k = k + 1;
    }
    assert(entries.deep_view().take(entries@.len() as int) =~= entries.deep_view());
    concat3("[", items.as_str(), "]")
}

impl ToolParameter {
    /// Whether this parameter can be turned into an argument: it has a flag, and an option
    /// list's chosen index lies within its options.
    pub fn argument_defined(&self) -> (r: bool)
        ensures
            r == argument_defined(self@),
    {
        self.flags.len() > 0 && (self.parameter_type != ParameterType::OptionList
            || self.int_value < self.str_vec_value.len())
    }

    /// The contribution of this parameter to the command line, given what the file system
    /// says of the paths it names.
    pub fn command_argument(&self, probe: &PathProbe) -> (r: Argument)
        requires
            argument_defined(self@),
        ensures
            r@ == argument_of(self@, *probe),
    {
        let flag = self.flags[self.flags.len() - 1].as_str();
        assert(flag@ == self@.flags.last());
        let v = self.str_value.as_str();
        let blank = is_blank(v);
        let unspecified = if !self.optional {
            Argument::Rejected(RunError::Unspecified(self.name.clone()))
        } else {
            Argument::Omitted
        };
        match self.parameter_type {
            ParameterType::Boolean => {
                if self.bool_value {
                    Argument::Included { arg: flag.to_owned(), shown: after_space(flag) }
                } else {
                    Argument::Omitted
                }
            },
            ParameterType::String | ParameterType::VectorAttributeField
            | ParameterType::StringOrNumber | ParameterType::ExistingFileOrFloat => {
                if !blank {
                    let arg = quote(flag, v);
                    let shown = after_space(arg.as_str());
                    Argument::Included { arg, shown }
                } else {
                    unspecified
                }
            },
            ParameterType::Integer | ParameterType::Float => {
                if !blank {
                    let t = trim(v);
                    let ok = if self.parameter_type == ParameterType::Integer {
                        is_usize_literal(t.as_str())
                    } else {
                        is_float_literal(t.as_str())
                    };
                    if ok {
                        let arg = concat3(flag, "=", v);
                        let shown = after_space(arg.as_str());
                        Argument::Included { arg, shown }
                    } else {
                        Argument::Rejected(RunError::InvalidNumber(self.name.clone()))
                    }
                } else {
                    unspecified
                }
            },
            ParameterType::ExistingFile => {
                if !blank {
                    if probe.value_exists || probe.value_exists_in_working_dir {
                        let t = trim(v);
                        let arg = quote(flag, v);
                        let shown_arg = quote(flag, t.as_str());
                        let shown = after_space(shown_arg.as_str());
                        Argument::Included { arg, shown }
                    } else {
                        Argument::Rejected(RunError::FileNotFound(self.name.clone()))
                    }
                } else {
                    unspecified
                }
            },
            ParameterType::NewFile => {
                if !blank {
                    let t = trim(v);
                    let arg = quote(flag, v);
                    let shown_arg = quote(flag, t.as_str());
                    let shown = after_space(shown_arg.as_str());
                    Argument::Included { arg, shown }
                } else {
                    unspecified
                }
            },
            ParameterType::FileList => {
                if !blank {
                    let entries = file_list_entries(v);
                    let list = file_list_argument(&entries, &probe.entries_exist);
                    let arg = concat3(flag, "=", list.as_str());
                    let shown = after_space(arg.as_str());
                    Argument::Included { arg, shown }
                } else {
                    unspecified
                }
            },
            ParameterType::Directory => {
                if !blank {
                    if probe.value_exists {
                        let arg = quote(flag, v);
                        let shown = after_space(arg.as_str());
                        Argument::Included { arg, shown }
                    } else {
                        Argument::Rejected(RunError::DirectoryNotFound(trim(self.name.as_str())))
                    }
                } else {
                    unspecified
                }
            },
            ParameterType::OptionList => {
                let choice = self.str_vec_value[self.int_value].as_str();
                assert(choice@ == self@.str_vec_value[self.int_value as int]);
                let arg = quote(flag, choice);
                let shown = after_space(arg.as_str());
                Argument::Included { arg, shown }
            },
        }
    }
}

/// `s` after one space.
pub fn after_space(s: &str) -> (r: String)
    ensures
        r@ == " "@ + s@,
{
    let mut r = " ".to_owned();
    r.append(s);
    r
}

/// `flag='value'`.
pub fn quote(flag: &str, value: &str) -> (r: String)
    ensures
        r@ == quoted(flag@, value@),
{
    let mut r = concat3(flag, "='", value);
    r.append("'");
    r
}

// ---------------------------------------------------------------------------------------
// How the dialog shows a parameter
// ---------------------------------------------------------------------------------------

/// The name of a geometry as the hover text writes it.
pub open spec fn geometry_name(g: VectorGeometryType) -> Seq<char> {
    match g {
        VectorGeometryType::Any => "Any"@,
        VectorGeometryType::Point => "Point"@,
        VectorGeometryType::Line => "Line"@,
        VectorGeometryType::Polygon => "Polygon"@,
        VectorGeometryType::LineOrPolygon => "LineOrPolygon"@,
    }
}

/// The name of a geometry as the hover text writes it.
pub fn geometry_type_name(g: VectorGeometryType) -> (r: String)
    ensures
        r@ == geometry_name(g),
{
    match g {
        VectorGeometryType::Any => "Any".to_owned(),
        VectorGeometryType::Point => "Point".to_owned(),
        VectorGeometryType::Line => "Line".to_owned(),
        VectorGeometryType::Polygon => "Polygon".to_owned(),
        VectorGeometryType::LineOrPolygon => "LineOrPolygon".to_owned(),
    }
}

/// The length in bytes of the suffix that marks an optional parameter (`*`).
pub open spec fn suffix_len(optional: bool) -> int {
    if optional {
        1
    } else {
        0
    }
}

/// The suffix that marks an optional parameter.
pub open spec fn label_suffix(optional: bool) -> Seq<char> {
    if optional {
        "*"@
    } else {
        Seq::empty()
    }
}

/// The label of a parameter in the dialog: its name and the suffix where they take fewer
/// than 25 bytes; else the name's first `22 - suffix` bytes, `...` and the suffix.
pub open spec fn label_text(name: Seq<char>, optional: bool) -> Seq<char> {
    let bytes = encode_utf8(name);
    if bytes.len() + suffix_len(optional) < 25 {
        name + label_suffix(optional)
    } else {
        decode_utf8(bytes.subrange(0, 22 - suffix_len(optional))) + "..."@ + label_suffix(optional)
    }
}

/// The label can be cut where it must be: the cut falls on a character boundary.
pub open spec fn label_defined(name: Seq<char>, optional: bool) -> bool {
    let bytes = encode_utf8(name);
    bytes.len() + suffix_len(optional) >= 25 ==> is_char_boundary(bytes, 22 - suffix_len(optional))
}

/// A label is the whole name with its suffix where that is short; otherwise it is the
/// longest start of the name that takes `22 - suffix` bytes, then `...` and the suffix,
/// so that it always takes 25 bytes.
pub proof fn law_label_is_the_name_or_its_start(name: Seq<char>, optional: bool)
    requires
        label_defined(name, optional),
    ensures
        encode_utf8(name).len() + suffix_len(optional) < 25 ==> label_text(name, optional) == name
            + label_suffix(optional),
        encode_utf8(name).len() + suffix_len(optional) >= 25 ==> exists|m: int|
            0 <= m <= name.len() && encode_utf8(#[trigger] name.take(m)).len() == 22 - suffix_len(
                optional,
            ) && label_text(name, optional) == name.take(m) + "..."@ + label_suffix(optional),
{
    let bytes = encode_utf8(name);
    let k = 22 - suffix_len(optional);
    if bytes.len() + suffix_len(optional) >= 25 {
        encode_utf8_valid_utf8(name);
        valid_utf8_split(bytes, k);
        decode_utf8_split(bytes, k);
        encode_utf8_decode_utf8(name);
        let p = decode_utf8(bytes.subrange(0, k));
        let q = decode_utf8(bytes.subrange(k, bytes.len() as int));
        assert(name == p + q);
        assert(name.take(p.len() as int) =~= p);
        decode_utf8_encode_utf8(bytes.subrange(0, k));
        assert(encode_utf8(name.take(p.len() as int)).len() == k);
    }
}

/// The name of a parameter as its hover text begins: marked where it is optional.
pub open spec fn display_name_text(name: Seq<char>, optional: bool) -> Seq<char> {
    if optional {
        name + " [Optional]"@
    } else {
        name
    }
}

/// The hover text of a parameter: its name and description, and for a vector file its
/// geometry.
pub open spec fn hover_text_of(p: ToolParameterView) -> Seq<char> {
    let head = display_name_text(p.name, p.optional) + ":  "@ + p.description;
    match p.file_type {
        ParameterFileType::Vector | ParameterFileType::RasterAndVector => head
            + " (Geometry Type="@ + geometry_name(p.geometry_type) + ")"@,
        _ => head,
    }
}

impl ToolParameter {
    /// Whether the label of this parameter can be cut where it must be.
    pub fn label_is_defined(&self) -> (r: bool)
        requires
            encode_utf8(self@.name).len() <= usize::MAX,
        ensures
            r == label_defined(self@.name, self@.optional),
    {
        let name = self.name.as_str();
        let n = name.len();
        let sl: usize = if self.optional {
            1
        } else {
            0
        };
        if n < 25 - sl {
            true
        } else {
            name.is_char_boundary(22 - sl)
        }
    }

    /// The label of this parameter in the dialog.
    pub fn label(&self) -> (r: String)
        requires
            encode_utf8(self@.name).len() <= usize::MAX,
            label_defined(self@.name, self@.optional),
        ensures
            r@ == label_text(self@.name, self@.optional),
    {
        let name = self.name.as_str();
        let n = name.len();
        let sl: usize = if self.optional {
            1
        } else {
            0
        };
        if n < 25 - sl {
            if self.optional {
                join_two(name, "*")
            } else {
                name.to_owned()
            }
        } else {
            let (head, _) = name.split_at(22 - sl);
            proof {
                encode_utf8_decode_utf8(head@);
            }
            assert(head@ == decode_utf8(encode_utf8(name@).subrange(0, 22 - sl)));
            if self.optional {
                concat3(head, "...", "*")
            } else {
                join_two(head, "...")
            }
        }
    }

    /// The name of this parameter, marked where it is optional.
    pub fn display_name(&self) -> (r: String)
        ensures
            r@ == display_name_text(self@.name, self@.optional),
    {
        if self.optional {
            join_two(self.name.as_str(), " [Optional]")
        } else {
            self.name.clone()
        }
    }

    /// The hover text of this parameter.
    pub fn hover_text(&self) -> (r: String)
        ensures
            r@ == hover_text_of(self@),
    {
        let name = self.display_name();
        let mut head = concat3(name.as_str(), ":  ", self.description.as_str());
        match self.file_type {
            ParameterFileType::Vector | ParameterFileType::RasterAndVector => {
                let g = geometry_type_name(self.geometry_type);
                head.append(" (Geometry Type=");
                head.append(g.as_str());
                head.append(")");
                head
            },
            _ => head,
        }
    }

    /// Adds a picked file to this file list, on a line of its own.
    pub fn add_file_list_entry(&mut self, path: &str)
        ensures
            final(self)@ == (ToolParameterView {
                str_value: old(self)@.str_value + path@ + "\n"@,
                ..old(self)@
            }),
    {
        self.str_value.append(path);
        self.str_value.append("\n");
    }
}

/// `a + b` as one string.
pub fn join_two(a: &str, b: &str) -> (r: String)
    ensures
        r@ == a@ + b@,
{
    let mut r = a.to_owned();
    r.append(b);
    r
}

} // verus!
