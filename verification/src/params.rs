//! Building the argument and environment blocks handed to the OS at exec
//! time. Every parameter must reach the OS as a C-style string: a byte
//! buffer with a terminating nul and no nul anywhere else. Validation
//! happens here, in full; the surrounding program only turns the validated
//! buffers into raw pointers.

use vstd::prelude::*;
use vstd::string::StrSliceExecFns;
use vstd::string::StringSliceAdditionalSpecFns;

use crate::error::CommandError;

verus! {

/// A well-formed C-style string image: non-empty, nul-terminated, with no
/// interior nul byte.
pub open spec fn c_string_ok(b: Seq<u8>) -> bool {
    &&& b.len() > 0
    &&& b.last() == 0u8
    &&& forall|i: int| 0 <= i < b.len() - 1 ==> b[i] != 0u8
}

/// Whether a byte sequence holds a nul byte anywhere.
pub open spec fn has_nul(b: Seq<u8>) -> bool {
    exists|i: int| 0 <= i < b.len() && b[i] == 0u8
}

/// The position of the first nul byte, or the sequence's length when there
/// is none.
pub open spec fn spec_first_nul(b: Seq<u8>) -> int
    decreases b.len(),
{
    if b.len() == 0 {
        0
    } else if b[0] == 0u8 {
        0
    } else {
        1 + spec_first_nul(b.drop_first())
    }
}

proof fn lemma_first_nul_position(b: Seq<u8>, p: int)
    requires
        0 <= p <= b.len(),
        p == b.len() || b[p] == 0u8,
        forall|j: int| 0 <= j < p ==> b[j] != 0u8,
    ensures
        spec_first_nul(b) == p,
    decreases p,
{
    if p == 0 {
        if b.len() > 0 {
        }
    } else {
        let rest = b.drop_first();
        assert(forall|j: int| 0 <= j < p - 1 ==> rest[j] != 0u8);
        lemma_first_nul_position(rest, p - 1);
    }
}

/// Converts one string into its C-style image: a copy of its bytes with a
/// terminating nul appended. A string holding an interior nul byte cannot be
/// passed to the OS; the error reports the position of the first one.
pub fn command_str(s: &str) -> (r: Result<Vec<u8>, CommandError>)
    ensures
        match r {
            Ok(b) => !has_nul(s.spec_bytes()) && b@ == s.spec_bytes().push(0u8) && c_string_ok(b@),
            Err(e) => has_nul(s.spec_bytes()) && e == CommandError::NulByte(
                spec_first_nul(s.spec_bytes()) as usize,
            ),
        },
{
    let mut b = s.as_bytes_vec();
    let n = b.len();
    let mut i: usize = 0;
    while i < n
        invariant
            n == b@.len(),
            b@ == s.spec_bytes(),
            i <= n,
            forall|j: int| 0 <= j < i ==> b@[j] != 0u8,
        decreases n - i,
    {
        if b[i] == 0u8 {
            proof {
                lemma_first_nul_position(b@, i as int);
            }
            return Err(CommandError::NulByte(i));
        }
        i += 1;
    }
    b.push(0u8);
    Ok(b)
}

/// A set of validated parameters for a process: every entry is a well-formed
/// C-style string image, in the order added.
#[derive(Clone, Debug)]
pub struct Params {
    inner: Vec<Vec<u8>>,
}

impl View for Params {
    type V = Seq<Seq<u8>>;

    closed spec fn view(&self) -> Seq<Seq<u8>> {
        self.inner@.map(|i: int, b: Vec<u8>| b@)
    }
}

impl Params {
    /// Every stored parameter is a well-formed C-style string image.
    pub open spec fn wf(self) -> bool {
        forall|i: int| 0 <= i < self@.len() ==> c_string_ok(#[trigger] self@[i])
    }

    /// Constructs an empty set of parameters.
    pub fn new() -> (r: Params)
        ensures
            r@ == Seq::<Seq<u8>>::empty(),
            r.wf(),
    {
        Params { inner: Vec::new() }
    }

    /// Appends one validated parameter.
    pub fn arg(&mut self, arg: Vec<u8>)
        requires
            old(self).wf(),
            c_string_ok(arg@),
        ensures
            final(self)@ == old(self)@.push(arg@),
            final(self).wf(),
    {
        self.inner.push(arg);
        proof {
            assert(self@ =~= old(self)@.push(arg@));
        }
    }

    /// The validated parameter buffers, in order, for the caller that turns
    /// them into the OS calling convention.
    pub fn buffers(&self) -> (r: &Vec<Vec<u8>>)
        ensures
            r@.map(|i: int, b: Vec<u8>| b@) == self@,
    {
        &self.inner
    }
}

impl Default for Params {
    fn default() -> (r: Params)
        ensures
            r@ == Seq::<Seq<u8>>::empty(),
            r.wf(),
    {
        Params::new()
    }
}

/// What gathering one string does to a parameter list and its remembered
/// error: a nul-free string's C-style image is appended; a string with a nul
/// byte is dropped, and the position of its first nul is remembered unless
/// an earlier failure already was.
pub open spec fn spec_gather_one(
    params: Seq<Seq<u8>>,
    err: Option<CommandError>,
    b: Seq<u8>,
) -> (Seq<Seq<u8>>, Option<CommandError>) {
    if !has_nul(b) {
        (params.push(b.push(0u8)), err)
    } else {
        (
            params,
            match err {
                Some(e) => Some(e),
                None => Some(CommandError::NulByte(spec_first_nul(b) as usize)),
            },
        )
    }
}

/// Gathering a whole list, one string after the other, in order.
pub open spec fn spec_gather(
    params: Seq<Seq<u8>>,
    err: Option<CommandError>,
    images: Seq<Seq<u8>>,
) -> (Seq<Seq<u8>>, Option<CommandError>)
    decreases images.len(),
{
    if images.len() == 0 {
        (params, err)
    } else {
        let stepped = spec_gather_one(params, err, images.first());
        spec_gather(stepped.0, stepped.1, images.drop_first())
    }
}

/// The UTF-8 images of a list of strings, in order.
pub open spec fn spec_byte_images(args: Seq<String>) -> Seq<Seq<u8>> {
    Seq::new(args.len(), |i: int| vstd::utf8::encode_utf8(args[i]@))
}

proof fn lemma_gather_snoc(
    params: Seq<Seq<u8>>,
    err: Option<CommandError>,
    images: Seq<Seq<u8>>,
    b: Seq<u8>,
)
    ensures
        ({
            let folded = spec_gather(params, err, images);
            spec_gather(params, err, images.push(b)) == spec_gather_one(folded.0, folded.1, b)
        }),
    decreases images.len(),
{
    if images.len() == 0 {
        let stepped = spec_gather_one(params, err, b);
        assert(images.push(b).first() == b);
        assert(images.push(b).drop_first() =~= Seq::<Seq<u8>>::empty());
        assert(spec_gather(stepped.0, stepped.1, Seq::<Seq<u8>>::empty()) == stepped);
        assert(spec_gather(params, err, images.push(b)) == stepped);
    } else {
        assert(images.push(b).first() == images.first());
        assert(images.push(b).drop_first() =~= images.drop_first().push(b));
        let stepped = spec_gather_one(params, err, images.first());
        lemma_gather_snoc(stepped.0, stepped.1, images.drop_first(), b);
        assert(spec_gather(params, err, images.push(b)) == spec_gather(
            stepped.0,
            stepped.1,
            images.drop_first().push(b),
        ));
        assert(spec_gather(params, err, images) == spec_gather(
            stepped.0,
            stepped.1,
            images.drop_first(),
        ));
    }
}

/// Parameters gathered from plain strings, remembering the first conversion
/// failure instead of failing fast, so a whole argument list can be gathered
/// and the error surfaced when the parameters are finally used.
#[derive(Clone, Debug)]
pub struct OsParams {
    inner: Params,
    err: Option<CommandError>,
}

impl OsParams {
    pub open spec fn wf(self) -> bool {
        self.params().wf()
    }

    /// The parameters gathered so far.
    pub closed spec fn params(self) -> Params {
        self.inner
    }

    /// The first conversion failure, if any.
    pub closed spec fn first_err(self) -> Option<CommandError> {
        self.err
    }

    /// Constructs an empty parameter gatherer.
    pub fn new() -> (r: OsParams)
        ensures
            r.params()@ == Seq::<Seq<u8>>::empty(),
            r.first_err() is None,
            r.wf(),
    {
        OsParams { inner: Params::new(), err: None }
    }

    /// Appends the argument, converted to its C-style image; on a conversion
    /// failure the parameters stay as they were and the first such error is
    /// remembered.
    pub fn arg(&mut self, arg: &str)
        requires
            old(self).wf(),
        ensures
            final(self).wf(),
            (final(self).params()@, final(self).first_err()) == spec_gather_one(
                old(self).params()@,
                old(self).first_err(),
                arg.spec_bytes(),
            ),
    {
        match command_str(arg) {
            Ok(b) => {
                self.inner.arg(b);
            },
            Err(e) => {
                if self.err.is_none() {
                    self.err = Some(e);
                }
            },
        }
    }

    /// Appends each argument of the list, converted in order, remembering
    /// the first conversion failure across the whole list.
    pub fn args(&mut self, args: &Vec<String>)
        requires
            old(self).wf(),
        ensures
            final(self).wf(),
            (final(self).params()@, final(self).first_err()) == spec_gather(
                old(self).params()@,
                old(self).first_err(),
                spec_byte_images(args@),
            ),
    {
        let ghost images = spec_byte_images(args@);
        let mut i: usize = 0;
        while i < args.len()
            invariant
                old(self).wf(),
                i <= args@.len(),
                images == spec_byte_images(args@),
                self.wf(),
                (self.params()@, self.first_err()) == spec_gather(
                    old(self).params()@,
                    old(self).first_err(),
                    images.subrange(0, i as int),
                ),
            decreases args@.len() - i,
        {
            let ghost params_before = self.params()@;
            let ghost err_before = self.first_err();
            self.arg(args[i].as_str());
            proof {
                assert(images.subrange(0, i + 1) =~= images.subrange(0, i as int).push(images[i as int]));
                lemma_gather_snoc(
                    old(self).params()@,
                    old(self).first_err(),
                    images.subrange(0, i as int),
                    images[i as int],
                );
            }
            i += 1;
        }
        proof {
            assert(images.subrange(0, args@.len() as int) =~= images);
        }
    }

    /// Hands out the gathered parameter buffers, or the first conversion
    /// failure if any argument was rejected.
    pub fn materialize(&self) -> (r: Result<&Vec<Vec<u8>>, CommandError>)
        ensures
            match r {
                Ok(bufs) => self.first_err() is None && bufs@.map(|i: int, b: Vec<u8>| b@)
                    == self.params()@,
                Err(e) => self.first_err() == Some(e),
            },
    {
        match &self.err {
            None => Ok(self.inner.buffers()),
            Some(e) => Err(*e),
        }
    }
}

impl Default for OsParams {
    fn default() -> (r: OsParams)
        ensures
            r.params()@ == Seq::<Seq<u8>>::empty(),
            r.first_err() is None,
            r.wf(),
    {
        OsParams::new()
    }
}

} // verus!
