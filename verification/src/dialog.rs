//! The file filters that the file dialog of each kind of file parameter offers.

use vstd::prelude::*;

use crate::parameter::ParameterFileType;

verus! {

/// A named filter of a file dialog and the file extensions it lets through.
pub struct FileFilter {
    pub name: String,
    pub extensions: Vec<String>,
}

impl View for FileFilter {
    type V = (Seq<char>, Seq<Seq<char>>);

    open spec fn view(&self) -> (Seq<char>, Seq<Seq<char>>) {
        (self.name@, self.extensions.deep_view())
    }
}

/// The views of a list of filters.
pub open spec fn filters_view(filters: Seq<FileFilter>) -> Seq<(Seq<char>, Seq<Seq<char>>)> {
    filters.map_values(|f: FileFilter| f@)
}

/// The extensions of raster files.
pub open spec fn raster_extensions() -> Seq<Seq<char>> {
    seq![
        "tif"@,
        "tiff"@,
        "bil"@,
        "hdr"@,
        "flt"@,
        "sdat"@,
        "sgrd"@,
        "rdc"@,
        "rst"@,
        "grd"@,
        "txt"@,
        "asc"@,
        "tas"@,
        "dep"@,
    ]
}

/// The filters that the file dialog of a parameter expecting `file_type` offers, in order;
/// none for any file.
pub open spec fn dialog_filters(file_type: ParameterFileType) -> Seq<(Seq<char>, Seq<Seq<char>>)> {
    match file_type {
        ParameterFileType::Lidar => seq![
            ("LAS Files"@, seq!["las"@]),
            ("LAZ Files"@, seq!["laz"@]),
            ("zLidar Files"@, seq!["zLidar"@]),
            ("Lidar Files"@, seq!["las"@, "laz"@, "zLidar"@]),
        ],
        ParameterFileType::Raster => seq![
            ("Raster Files"@, raster_extensions()),
            ("GeoTIFF Files"@, seq!["tif"@, "tiff"@]),
        ],
        ParameterFileType::Vector => seq![("Vector Files"@, seq!["shp"@])],
        ParameterFileType::RasterAndVector => seq![
            ("Raster Files"@, raster_extensions()),
            ("Vector Files"@, seq!["shp"@]),
        ],
        ParameterFileType::Text => seq![("Test Files"@, seq!["txt"@])],
        ParameterFileType::Html => seq![("HTML Files"@, seq!["html"@])],
        ParameterFileType::Csv => seq![("CSV Files"@, seq!["csv"@])],
        ParameterFileType::Dat => seq![("DAT Files"@, seq!["dat"@])],
        ParameterFileType::Any => Seq::empty(),
    }
}

/// A filter named `name` for the extensions `extensions`.
fn make_filter(name: &str, extensions: Vec<&str>) -> (r: FileFilter)
    ensures
        r@.0 == name@,
        r@.1 == extensions@.map_values(|e: &str| e@),
{
    let mut out: Vec<String> = Vec::new();
    let mut i: usize = 0;
    while i < extensions.len()
        invariant
            i <= extensions@.len(),
            out.deep_view() =~= extensions@.take(i as int).map_values(|e: &str| e@),
        decreases extensions.len() - i,
    {
        let ghost before = out.deep_view();
        out.push(extensions[i].to_owned());
        assert(out.deep_view() =~= before.push(extensions@[i as int]@));
        assert(extensions@.take(i as int + 1) =~= extensions@.take(i as int).push(
            extensions@[i as int],
        ));
        i = i + 1;
    }
    assert(extensions@.take(extensions@.len() as int) =~= extensions@);
    FileFilter { name: name.to_owned(), extensions: out }
}

/// The raster filter, shared by the raster kinds.
fn raster_filter() -> (r: FileFilter)
    ensures
        r@ == ("Raster Files"@, raster_extensions()),
{
    let f = make_filter(
        "Raster Files",
        vec![
            "tif",
            "tiff",
            "bil",
            "hdr",
            "flt",
            "sdat",
            "sgrd",
            "rdc",
            "rst",
            "grd",
            "txt",
            "asc",
            "tas",
            "dep",
        ],
    );
    assert(f@.1 =~= raster_extensions());
    f
}

/// The filters that the file dialog of a parameter expecting `file_type` offers.
pub fn file_dialog_filters(file_type: ParameterFileType) -> (r: Vec<FileFilter>)
    ensures
        filters_view(r@) == dialog_filters(file_type),
{
    let mut r: Vec<FileFilter> = Vec::new();
    match file_type {
        ParameterFileType::Lidar => {
            r.push(make_filter("LAS Files", vec!["las"]));
            r.push(make_filter("LAZ Files", vec!["laz"]));
            r.push(make_filter("zLidar Files", vec!["zLidar"]));
            r.push(make_filter("Lidar Files", vec!["las", "laz", "zLidar"]));
        },
        ParameterFileType::Raster => {
            r.push(raster_filter());
            r.push(make_filter("GeoTIFF Files", vec!["tif", "tiff"]));
        },
        ParameterFileType::Vector => {
            r.push(make_filter("Vector Files", vec!["shp"]));
        },
        ParameterFileType::RasterAndVector => {
            r.push(raster_filter());
            r.push(make_filter("Vector Files", vec!["shp"]));
        },
        ParameterFileType::Text => {
            r.push(make_filter("Test Files", vec!["txt"]));
        },
        ParameterFileType::Html => {
            r.push(make_filter("HTML Files", vec!["html"]));
        },
        ParameterFileType::Csv => {
            r.push(make_filter("CSV Files", vec!["csv"]));
        },
        ParameterFileType::Dat => {
            r.push(make_filter("DAT Files", vec!["dat"]));
        },
        ParameterFileType::Any => {},
    }
    assert(filters_view(r@) =~~= dialog_filters(file_type));
    r
}

/// The extensions of the files each kind stands for: LAS, LAZ and zLidar point clouds,
/// GeoTIFF rasters, shapefiles, text, HTML, CSV and DAT files.
pub open spec fn kind_extensions(file_type: ParameterFileType) -> Seq<Seq<char>> {
    match file_type {
        ParameterFileType::Lidar => seq!["las"@, "laz"@, "zLidar"@],
        ParameterFileType::Raster => seq!["tif"@],
        ParameterFileType::Vector => seq!["shp"@],
        ParameterFileType::RasterAndVector => seq!["tif"@, "shp"@],
        ParameterFileType::Text => seq!["txt"@],
        ParameterFileType::Html => seq!["html"@],
        ParameterFileType::Csv => seq!["csv"@],
        ParameterFileType::Dat => seq!["dat"@],
        ParameterFileType::Any => Seq::empty(),
    }
}

/// The file dialog of every kind of file has a filter that lets the files of that kind
/// through; a parameter that takes any file gets no filter at all.
pub proof fn law_filters_let_the_kind_through(file_type: ParameterFileType, ext: Seq<char>)
    requires
        kind_extensions(file_type).contains(ext),
    ensures
        exists|i: int|
            0 <= i < dialog_filters(file_type).len() && (#[trigger] dialog_filters(file_type)[i]).1.contains(ext),
{
    let fs = dialog_filters(file_type);
    let k = choose|k: int| 0 <= k < kind_extensions(file_type).len() && kind_extensions(file_type)[k] == ext;
    match file_type {
        ParameterFileType::Lidar => {
            assert(fs[k].1[0] == ext);
        },
        ParameterFileType::RasterAndVector => {
            if k == 0 {
                assert(fs[0].1[0] == ext);
            } else {
                assert(fs[1].1[0] == ext);
            }
        },
        ParameterFileType::Any => {},
        _ => {
            assert(fs[0].1[0] == ext);
        },
    }
}

/// Shapefiles: a vector file is picked through one filter, `Vector Files` for `.shp`,
/// the same filter that a raster-or-vector file offers after the raster one; and the
/// raster filter of a raster file is the first filter of a raster-or-vector file.
pub proof fn law_vector_and_raster_filters_are_shared()
    ensures
        dialog_filters(ParameterFileType::Vector) == seq![("Vector Files"@, seq!["shp"@])],
        dialog_filters(ParameterFileType::RasterAndVector).len() == 2,
        dialog_filters(ParameterFileType::RasterAndVector)[1] == dialog_filters(ParameterFileType::Vector)[0],
        dialog_filters(ParameterFileType::RasterAndVector)[0] == dialog_filters(ParameterFileType::Raster)[0],
        dialog_filters(ParameterFileType::Any).len() == 0,
{
}

} // verus!
