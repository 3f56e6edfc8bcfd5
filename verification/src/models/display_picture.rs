use crate::models::common::opt_view;
use vstd::prelude::*;

verus! {

/// A display picture: the image bytes and the hash that names them.
pub struct DisplayPicture {
    pub data: Vec<u8>,
    pub hash: String,
}

pub ghost struct DisplayPictureView {
    pub data: Seq<u8>,
    pub hash: Seq<char>,
}

impl View for DisplayPicture {
    type V = DisplayPictureView;

    open spec fn view(&self) -> DisplayPictureView {
        DisplayPictureView { data: self.data@, hash: self.hash@ }
    }
}

/// A copy of a byte buffer.
pub fn copy_bytes(v: &Vec<u8>) -> (r: Vec<u8>)
    ensures
        r@ == v@,
{
    let mut r: Vec<u8> = Vec::with_capacity(v.len());
    let mut i: usize = 0;
    while i < v.len()
        invariant
            i <= v.len(),
            r@ == v@.take(i as int),
        decreases v.len() - i,
    {
        r.push(v[i]);
        i = i + 1;
        assert(r@ =~= v@.take(i as int));
    }
    assert(v@.take(v.len() as int) =~= v@);
    r
}

impl DisplayPicture {
    pub fn duplicate(&self) -> (r: DisplayPicture)
        ensures
            r@ == self@,
    {
        DisplayPicture { data: copy_bytes(&self.data), hash: self.hash.clone() }
    }
}

/// A copy of an optional display picture.
pub fn copy_picture(p: &Option<DisplayPicture>) -> (r: Option<DisplayPicture>)
    ensures
        opt_view(r) == opt_view(*p),
{
    match p {
        Some(d) => Some(d.duplicate()),
        None => None,
    }
}

} // verus!
