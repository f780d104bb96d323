//! Icons.
use vstd::prelude::*;
use vstd::string::StringExecFns;

verus! {

/// The value that stands in place of a name for a resource known by a number.
pub open spec fn int_resource(id: u16) -> usize {
    id as usize
}

/// Makes the value that the native layer takes in place of a name for a
/// resource known by a number.
#[inline]
pub fn make_int_resource(id: u16) -> (r: usize)
    ensures
        r == int_resource(id),
{
    id as usize
}

/// Describes a icon.
#[derive(Debug)]
pub enum Icon {
    /// A icon from a resource id.
    Resource(u16),
    /// A icon from a file.
    File(String),
}

/// Where an icon's image is loaded from.
pub enum IconSource {
    /// A resource of the running module, under the value made of its number.
    Module(usize),
    /// A file, by its path.
    File(String),
}

impl Icon {
    pub fn from_path(path: &str) -> (r: Icon)
        ensures
            r matches Icon::File(p) && p@ == path@,
    {
        Icon::File(String::from_str(path))
    }

    /// Says where the icon's image is loaded from.
    pub fn source(&self) -> (r: IconSource)
        ensures
            match *self {
                Icon::Resource(id) => r == IconSource::Module(int_resource(id)),
                Icon::File(path) => r matches IconSource::File(p) && p@ == path@,
            },
    {
        match self {
            Icon::Resource(id) => IconSource::Module(make_int_resource(*id)),
            Icon::File(path) => IconSource::File(path.clone()),
        }
    }

    /// A copy of the icon.
    pub fn duplicate(&self) -> (r: Icon)
        ensures
            match *self {
                Icon::Resource(id) => r == Icon::Resource(id),
                Icon::File(path) => r matches Icon::File(p) && p@ == path@,
            },
    {
        match self {
            Icon::Resource(id) => Icon::Resource(*id),
            Icon::File(path) => Icon::File(path.clone()),
        }
    }
}

pub const IMAGE_ICON: u32 = 1;
pub const LR_LOADFROMFILE: u32 = 0x0000_0010;
pub const LR_SHARED: u32 = 0x0000_8000;
pub const SM_CXICON: i32 = 11;
pub const SM_CYICON: i32 = 12;
pub const SM_CXSMICON: i32 = 49;
pub const SM_CYSMICON: i32 = 50;

/// What the native layer is asked when an icon's image is loaded.
pub struct LoadImage {
    /// The module that holds the resource; zero for a file.
    pub module: isize,
    pub source: IconSource,
    pub image_type: u32,
    pub cx: i32,
    pub cy: i32,
    pub flags: u32,
}

/// The request is the one that loads an icon's image at a size: a resource
/// comes shared from the module, a file comes shared from its path.
pub open spec fn is_icon_load(r: LoadImage, hinst: isize, icon: Icon, cx: i32, cy: i32) -> bool {
    &&& r.image_type == IMAGE_ICON
    &&& r.cx == cx
    &&& r.cy == cy
    &&& match icon {
        Icon::Resource(id) => r.module == hinst && r.source == IconSource::Module(int_resource(id))
            && r.flags == LR_SHARED,
        Icon::File(path) => r.module == 0 && r.flags == LR_SHARED | LR_LOADFROMFILE && (
        r.source matches IconSource::File(p) && p@ == path@),
    }
}

fn load_icon_impl(hinst: isize, icon: &Icon, cx: i32, cy: i32) -> (r: LoadImage)
    ensures
        is_icon_load(r, hinst, *icon, cx, cy),
{
    match icon {
        Icon::Resource(id) => LoadImage {
            module: hinst,
            source: IconSource::Module(make_int_resource(*id)),
            image_type: IMAGE_ICON,
            cx,
            cy,
            flags: LR_SHARED,
        },
        Icon::File(path) => LoadImage {
            module: 0,
            source: IconSource::File(path.clone()),
            image_type: IMAGE_ICON,
            cx,
            cy,
            flags: LR_SHARED | LR_LOADFROMFILE,
        },
    }
}

/// Says how the large image of an icon is loaded. `cx` and `cy` are the
/// system's extents for large icons.
pub fn load_icon(icon: &Icon, hinst: isize, cx: i32, cy: i32) -> (r: LoadImage)
    ensures
        is_icon_load(r, hinst, *icon, cx, cy),
{
    load_icon_impl(hinst, icon, cx, cy)
}

/// Says how the small image of an icon is loaded. `cx` and `cy` are the
/// system's extents for small icons.
pub fn load_small_icon(icon: &Icon, hinst: isize, cx: i32, cy: i32) -> (r: LoadImage)
    ensures
        is_icon_load(r, hinst, *icon, cx, cy),
{
    load_icon_impl(hinst, icon, cx, cy)
}

} // verus!
