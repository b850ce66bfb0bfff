use vstd::prelude::*;

verus! {

/// The address of an application object, carried through the library as it is.
#[derive(Clone, Copy, Debug)]
pub struct AppObject {
    pub ptr: usize,
}

impl AppObject {
    pub fn new(ptr: usize) -> (r: Self)
        ensures
            r.ptr == ptr,
    {
        AppObject { ptr }
    }
}

impl From<AppObject> for usize {
    fn from(item: AppObject) -> (r: usize)
        ensures
            r == item.ptr,
    {
        item.ptr
    }
}

impl vstd::std_specs::convert::FromSpecImpl<AppObject> for usize {
    open spec fn obeys_from_spec() -> bool {
        true
    }

    open spec fn from_spec(item: AppObject) -> usize {
        item.ptr
    }
}

impl<'a> From<&'a AppObject> for usize {
    fn from(item: &'a AppObject) -> (r: usize)
        ensures
            r == item.ptr,
    {
        item.ptr
    }
}

impl<'a> vstd::std_specs::convert::FromSpecImpl<&'a AppObject> for usize {
    open spec fn obeys_from_spec() -> bool {
        true
    }

    open spec fn from_spec(item: &'a AppObject) -> usize {
        item.ptr
    }
}

impl From<usize> for AppObject {
    fn from(item: usize) -> (r: AppObject)
        ensures
            r.ptr == item,
    {
        AppObject::new(item)
    }
}

impl vstd::std_specs::convert::FromSpecImpl<usize> for AppObject {
    open spec fn obeys_from_spec() -> bool {
        true
    }

    open spec fn from_spec(item: usize) -> AppObject {
        AppObject { ptr: item }
    }
}

/// Each conversion carries the address unchanged: an application object, by
/// value or borrowed, converts to its own address, and an address converts to
/// the application object at that address.
pub proof fn law_conversions_keep_the_address(ptr: usize, object: AppObject)
    ensures
        <usize as vstd::std_specs::convert::FromSpec<AppObject>>::from_spec(object) == object.ptr,
        <usize as vstd::std_specs::convert::FromSpec<&AppObject>>::from_spec(&object) == object.ptr,
        <AppObject as vstd::std_specs::convert::FromSpec<usize>>::from_spec(ptr).ptr == ptr,
{
}

/// An address turned into an application object and back is the same address,
/// and an application object turned into its address and back is the same object.
pub proof fn law_app_object_round_trip(ptr: usize, object: AppObject)
    ensures
        <usize as vstd::std_specs::convert::FromSpec<AppObject>>::from_spec(
            <AppObject as vstd::std_specs::convert::FromSpec<usize>>::from_spec(ptr),
        ) == ptr,
        <AppObject as vstd::std_specs::convert::FromSpec<usize>>::from_spec(
            <usize as vstd::std_specs::convert::FromSpec<AppObject>>::from_spec(object),
        ) == object,
{
}

} // verus!
