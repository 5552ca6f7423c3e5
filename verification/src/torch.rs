//! Typed tensors, argument bundles and the forward-pass entry point of the
//! torch-flavoured part of the bindings, together with the saved-model
//! resource kind they are invoked on.

use vstd::prelude::*;
use vstd::arithmetic::mul::lemma_mul_is_commutative;
use vstd::string::StrSliceExecFns;
use crate::{Error, VaccelId, VACCEL_OK};
use crate::backend::Backend;
use crate::resources::{Resource, VaccelHandle};
use crate::session::Session;

verus! {

/// Tag naming the element type of a tensor buffer. The backend matches
/// buffers to model arguments by this tag, never by buffer length alone.
#[derive(Clone, Copy, Debug, PartialEq, Eq, Structural)]
pub enum DataType {
    Byte,
    Int32,
    Int64,
    Float,
}

impl DataType {
    /// Size in bytes of one element of this type.
    pub open spec fn size_spec(self) -> nat {
        match self {
            DataType::Byte => 1,
            DataType::Int32 => 4,
            DataType::Int64 => 8,
            DataType::Float => 4,
        }
    }

    /// Size in bytes of one element of this type.
    pub fn size(&self) -> (r: usize)
        ensures
            r == self.size_spec(),
    {
        match self {
            DataType::Byte => 1,
            DataType::Int32 => 4,
            DataType::Int64 => 8,
            DataType::Float => 4,
        }
    }
}

/// Product of the dimension sizes of a shape.
pub open spec fn product_of(shape: Seq<usize>) -> nat
    decreases shape.len(),
{
    if shape.len() == 0 {
        1
    } else {
        (shape[0] as nat) * product_of(shape.drop_first())
    }
}

proof fn lemma_product_zero(shape: Seq<usize>, j: int)
    requires
        0 <= j < shape.len(),
        shape[j] == 0,
    ensures
        product_of(shape) == 0,
    decreases shape.len(),
{
    if j == 0 {
    } else {
        lemma_product_zero(shape.drop_first(), j - 1);
    }
}

proof fn lemma_product_pos(shape: Seq<usize>)
    requires
        forall|j: int| 0 <= j < shape.len() ==> #[trigger] shape[j] >= 1,
    ensures
        product_of(shape) >= 1,
    decreases shape.len(),
{
    if shape.len() > 0 {
        lemma_product_pos(shape.drop_first());
        assert((shape[0] as nat) * product_of(shape.drop_first()) >= 1) by (nonlinear_arith)
            requires
                shape[0] >= 1,
                product_of(shape.drop_first()) >= 1,
        ;
    }
}

/// Byte length that a buffer must have for `shape` and element size `elem`,
/// or `None` when that length exceeds `usize::MAX` (in which case no real
/// buffer can match it).
fn checked_total(shape: &Vec<usize>, elem: usize) -> (r: Option<usize>)
    requires
        1 <= elem,
    ensures
        match r {
            Some(p) => p == product_of(shape@) * elem,
            None => product_of(shape@) * elem > usize::MAX,
        },
{
    let mut i: usize = 0;
    while i < shape.len()
        invariant
            i <= shape@.len(),
            forall|j: int| 0 <= j < i ==> #[trigger] shape@[j] >= 1,
        decreases shape@.len() - i,
    {
        if shape[i] == 0 {
            proof {
                lemma_product_zero(shape@, i as int);
            }
            return Some(0);
        }
        i = i + 1;
    }
    let mut acc: usize = elem;
    let mut k: usize = 0;
    proof {
        assert(shape@.skip(0) =~= shape@);
        lemma_mul_is_commutative(elem as int, product_of(shape@) as int);
    }
    while k < shape.len()
        invariant
            k <= shape@.len(),
            1 <= elem,
            forall|j: int| 0 <= j < shape@.len() ==> #[trigger] shape@[j] >= 1,
            acc >= 1,
            (acc as nat) * product_of(shape@.skip(k as int)) == product_of(shape@) * elem,
        decreases shape@.len() - k,
    {
        let ghost sk = shape@.skip(k as int);
        let ghost rest = shape@.skip(k as int + 1);
        proof {
            assert(sk.len() > 0);
            assert(sk[0] == shape@[k as int]);
            assert(sk.drop_first() =~= rest);
            lemma_product_pos(rest);
        }
        let d = shape[k];
        match acc.checked_mul(d) {
            Some(next) => {
                proof {
                    assert((next as nat) * product_of(rest)
                        == (acc as nat) * product_of(sk) && next >= 1) by (nonlinear_arith)
                        requires
                            next == (acc as nat) * (d as nat),
                            product_of(sk) == (d as nat) * product_of(rest),
                            acc >= 1,
                            d >= 1,
                    ;
                }
                acc = next;
                k = k + 1;
            },
            None => {
                proof {
                    assert((acc as nat) * product_of(sk) > usize::MAX) by (nonlinear_arith)
                        requires
                            (acc as nat) * (d as nat) > usize::MAX,
                            product_of(sk) == (d as nat) * product_of(rest),
                            product_of(rest) >= 1,
                            acc >= 1,
                    ;
                }
                return None;
            },
        }
    }
    proof {
        assert(k == shape@.len());
        assert(shape@.skip(k as int) =~= Seq::<usize>::empty());
        assert(product_of(Seq::<usize>::empty()) == 1);
        assert(product_of(shape@.skip(k as int)) == 1);
        assert(acc as nat == product_of(shape@) * elem) by (nonlinear_arith)
            requires
                (acc as nat) * product_of(shape@.skip(k as int)) == product_of(shape@) * elem,
                product_of(shape@.skip(k as int)) == 1,
        ;
    }
    Some(acc)
}

/// Dimensioned, typed byte buffer crossing the foreign boundary. A filled
/// tensor's buffer length always equals the product of its shape times the
/// element size; construction rejects any other buffer.
pub struct Tensor {
    dtype: DataType,
    shape: Vec<usize>,
    data: Vec<u8>,
}

/// Whether two tensors agree in element type, shape and buffer contents.
pub open spec fn tensor_like(a: Tensor, b: Tensor) -> bool {
    &&& a.dtype_spec() == b.dtype_spec()
    &&& a.shape_spec() == b.shape_spec()
    &&& a.data_spec() == b.data_spec()
}

impl Tensor {
    /// The element type tag.
    pub closed spec fn dtype_spec(self) -> DataType {
        self.dtype
    }

    /// The shape, as the ordered sequence of dimension sizes.
    pub closed spec fn shape_spec(self) -> Seq<usize> {
        self.shape@
    }

    /// The raw byte buffer.
    pub closed spec fn data_spec(self) -> Seq<u8> {
        self.data@
    }

    /// A filled tensor: the buffer length matches shape and element size.
    pub open spec fn wf(self) -> bool {
        self.data_spec().len() == product_of(self.shape_spec()) * self.dtype_spec().size_spec()
    }

    /// Start a tensor of the given element type and shape with an empty
    /// buffer; `with_data` fills it.
    pub fn new(dtype: DataType, shape: Vec<usize>) -> (t: Tensor)
        ensures
            t.dtype_spec() == dtype,
            t.shape_spec() == shape@,
            t.data_spec() == Seq::<u8>::empty(),
    {
        Tensor { dtype, shape, data: Vec::new() }
    }

    /// Fill the tensor with a buffer. Succeeds exactly when the buffer
    /// length equals the product of the shape times the element size;
    /// any other buffer is rejected, never truncated.
    pub fn with_data(self, data: Vec<u8>) -> (r: Result<Tensor, Error>)
        ensures
            r is Ok <==> data@.len() == product_of(self.shape_spec())
                * self.dtype_spec().size_spec(),
            match r {
                Ok(t) => {
                    &&& t.dtype_spec() == self.dtype_spec()
                    &&& t.shape_spec() == self.shape_spec()
                    &&& t.data_spec() == data@
                    &&& t.wf()
                },
                Err(e) => e == Error::InvalidArgument,
            },
    {
        let elem = self.dtype.size();
        let n = data.len();
        match checked_total(&self.shape, elem) {
            Some(total) => {
                if n == total {
                    Ok(Tensor { dtype: self.dtype, shape: self.shape, data })
                } else {
                    Err(Error::InvalidArgument)
                }
            },
            None => Err(Error::InvalidArgument),
        }
    }

    /// The element type tag.
    pub fn data_type(&self) -> (r: DataType)
        ensures
            r == self.dtype_spec(),
    {
        self.dtype
    }

    /// The shape.
    pub fn shape(&self) -> (r: &Vec<usize>)
        ensures
            r@ == self.shape_spec(),
    {
        &self.shape
    }

    /// The raw byte buffer.
    pub fn data(&self) -> (r: &Vec<u8>)
        ensures
            r@ == self.data_spec(),
    {
        &self.data
    }

    /// How many dimensions the shape has.
    pub fn nr_dims(&self) -> (r: usize)
        ensures
            r == self.shape_spec().len(),
    {
        self.shape.len()
    }

    /// The size of dimension `i`; an index beyond the dimension count is
    /// rejected with `OutOfRange`.
    pub fn dim(&self, i: usize) -> (r: Result<usize, Error>)
        ensures
            r is Ok <==> i < self.shape_spec().len(),
            match r {
                Ok(d) => d == self.shape_spec()[i as int],
                Err(e) => e == Error::OutOfRange,
            },
    {
        if i < self.shape.len() {
            Ok(self.shape[i])
        } else {
            Err(Error::OutOfRange)
        }
    }

    /// Read the buffer as elements of type `want`; a tag other than the
    /// tensor's own is rejected with `TypeMismatch`.
    pub fn typed_data(&self, want: DataType) -> (r: Result<&Vec<u8>, Error>)
        ensures
            r is Ok <==> want == self.dtype_spec(),
            match r {
                Ok(d) => d@ == self.data_spec(),
                Err(e) => e == Error::TypeMismatch,
            },
    {
        if want == self.dtype {
            Ok(&self.data)
        } else {
            Err(Error::TypeMismatch)
        }
    }
}

impl Clone for Tensor {
    /// The clone agrees with the original in type, shape and contents.
    fn clone(&self) -> (r: Self)
        ensures
            tensor_like(r, *self),
    {
        let shape = self.shape.clone();
        let data = self.data.clone();
        proof {
            assert(shape@ =~= self.shape@);
            assert(data@ =~= self.data@);
        }
        Tensor { dtype: self.dtype, shape, data }
    }
}

/// Opaque run-options buffer handed through to the backend unchanged.
pub struct Buffer {
    data: Vec<u8>,
}

impl Buffer {
    /// The bytes of the buffer.
    pub closed spec fn data_spec(self) -> Seq<u8> {
        self.data@
    }

    /// Wrap a byte buffer.
    pub fn new(data: Vec<u8>) -> (b: Buffer)
        ensures
            b.data_spec() == data@,
    {
        Buffer { data }
    }

    /// The bytes of the buffer.
    pub fn data(&self) -> (r: &Vec<u8>)
        ensures
            r@ == self.data_spec(),
    {
        &self.data
    }

    /// How many bytes the buffer holds.
    pub fn len(&self) -> (r: usize)
        ensures
            r == self.data_spec().len(),
    {
        self.data.len()
    }
}

/// Resource kind wrapping a framework-specific saved model exported as a
/// directory. It starts uninitialized; `from_export_dir` performs the
/// native creation.
pub struct SavedModel {
    handle: Option<VaccelHandle>,
}

impl SavedModel {
    /// Start a saved-model resource. It is not initialized until a
    /// creation call such as `from_export_dir` succeeds.
    pub fn new() -> (m: SavedModel)
        ensures
            !m.initialized_spec(),
            m.id_spec() == 0,
    {
        SavedModel { handle: None }
    }

    /// Create the model from the path of an export directory. An empty
    /// path, or a model that already owns a handle, is rejected with
    /// `InvalidArgument` before the backend is reached; otherwise the
    /// backend assigns a fresh id and the model comes back initialized, or
    /// the backend's failure is surfaced as `Runtime`.
    pub fn from_export_dir(self, backend: &mut Backend, path: &str) -> (r: Result<
        SavedModel,
        Error,
    >)
        requires
            old(backend).wf(),
        ensures
            final(backend).wf(),
            self.initialized_spec() || path@.len() == 0 ==> {
                &&& r == Err::<SavedModel, Error>(Error::InvalidArgument)
                &&& *final(backend) == *old(backend)
            },
            !self.initialized_spec() && path@.len() > 0 && old(backend).next_id_spec() < i64::MAX
                ==> r is Ok && {
                let m = r->Ok_0;
                &&& m.initialized_spec()
                &&& m.id_spec() == old(backend).next_id_spec()
                &&& final(backend).is_live_spec(m.id_spec())
                &&& final(backend).live_ids() == old(backend).live_ids().push(m.id_spec())
                &&& final(backend).next_id_spec() == old(backend).next_id_spec() + 1
                &&& final(backend).dep_record() == old(backend).dep_record()
            },
            !self.initialized_spec() && path@.len() > 0 && old(backend).next_id_spec() == i64::MAX
                ==> {
                &&& r == Err::<SavedModel, Error>(Error::Runtime(crate::VACCEL_ENOMEM))
                &&& *final(backend) == *old(backend)
            },
    {
        if self.handle.is_some() {
            return Err(Error::InvalidArgument);
        }
        if path.unicode_len() == 0 {
            return Err(Error::InvalidArgument);
        }
        match backend.create_resource() {
            Ok(id) => {
                proof {
                    let l = backend.live_ids();
                    assert(l[l.len() - 1] == id);
                    assert(l.contains(id));
                }
                Ok(SavedModel { handle: Some(VaccelHandle { id }) })
            },
            Err(code) => Err(Error::Runtime(code)),
        }
    }
}

impl Resource for SavedModel {
    closed spec fn id_spec(self) -> VaccelId {
        match self.handle {
            Some(h) => h.id,
            None => 0,
        }
    }

    closed spec fn initialized_spec(self) -> bool {
        self.handle is Some
    }

    fn id(&self) -> (r: VaccelId) {
        match self.handle {
            Some(h) => h.id,
            None => 0,
        }
    }

    fn initialized(&self) -> (r: bool) {
        self.handle.is_some()
    }

    fn to_vaccel(&self) -> (r: Option<VaccelHandle>) {
        self.handle
    }

    fn destroy(&mut self, backend: &mut Backend) -> (r: Result<(), Error>) {
        match self.handle {
            None => Ok(()),
            Some(h) => {
                let status = backend.destroy_resource(h.id);
                if status == VACCEL_OK {
                    self.handle = None;
                    Ok(())
                } else {
                    Err(Error::Runtime(status))
                }
            },
        }
    }
}

/// Ordered argument bundle for one invocation: input tensors in the order
/// the loaded model expects them, and an optional run-options buffer. The
/// order of `add_input` calls defines the positional argument order; this
/// layer hands the bundle to the backend exactly as built.
pub struct TorchArgs {
    inputs: Vec<Tensor>,
    run_options: Option<Buffer>,
}

impl TorchArgs {
    /// The input tensors, in the order they were added.
    pub closed spec fn inputs_spec(self) -> Seq<Tensor> {
        self.inputs@
    }

    /// The run-options buffer, if one was set.
    pub closed spec fn run_options_spec(self) -> Option<Buffer> {
        self.run_options
    }

    /// Start an empty bundle: no inputs, no run options.
    pub fn new() -> (a: TorchArgs)
        ensures
            a.inputs_spec() == Seq::<Tensor>::empty(),
            a.run_options_spec() is None,
    {
        TorchArgs { inputs: Vec::new(), run_options: None }
    }

    /// Append one input tensor; it takes the next argument position.
    pub fn add_input(&mut self, tensor: Tensor)
        ensures
            final(self).inputs_spec() == old(self).inputs_spec().push(tensor),
            final(self).run_options_spec() == old(self).run_options_spec(),
    {
        self.inputs.push(tensor);
    }

    /// Set the run-options buffer, replacing any earlier one.
    pub fn set_run_options(&mut self, options: Buffer)
        ensures
            final(self).inputs_spec() == old(self).inputs_spec(),
            final(self).run_options_spec() == Some(options),
    {
        self.run_options = Some(options);
    }

    /// How many inputs the bundle holds.
    pub fn input_count(&self) -> (r: usize)
        ensures
            r == self.inputs_spec().len(),
    {
        self.inputs.len()
    }
}

/// Output tensors of one forward pass, owned by the bundle and exposed by
/// index. Their element type and shape are as the backend reported them.
pub struct TorchResult {
    outputs: Vec<Tensor>,
}

impl TorchResult {
    /// The output tensors, in the backend's order.
    pub closed spec fn outputs_spec(self) -> Seq<Tensor> {
        self.outputs@
    }

    /// How many output tensors the result holds.
    pub fn output_count(&self) -> (r: usize)
        ensures
            r == self.outputs_spec().len(),
    {
        self.outputs.len()
    }

    /// The output at `index`, read as element type `want`. An index beyond
    /// the output count is rejected with `OutOfRange`; a tag other than the
    /// tensor's own with `TypeMismatch`.
    pub fn get_output(&self, index: usize, want: DataType) -> (r: Result<&Tensor, Error>)
        ensures
            index >= self.outputs_spec().len() ==> r == Err::<&Tensor, Error>(Error::OutOfRange),
            index < self.outputs_spec().len() && want != self.outputs_spec()[index as int].dtype_spec()
                ==> r == Err::<&Tensor, Error>(Error::TypeMismatch),
            index < self.outputs_spec().len() && want == self.outputs_spec()[index as int].dtype_spec()
                ==> r is Ok && *r->Ok_0 == self.outputs_spec()[index as int],
    {
        if index >= self.outputs.len() {
            return Err(Error::OutOfRange);
        }
        let out = &self.outputs[index];
        if out.data_type() == want {
            Ok(out)
        } else {
            Err(Error::TypeMismatch)
        }
    }
}

/// Entry point for the jit-load forward pass of a saved model.
pub struct TorchJitLoadForward {}

impl TorchJitLoadForward {
    /// Prepare a forward-pass entry point.
    pub fn new() -> TorchJitLoadForward {
        TorchJitLoadForward {  }
    }

    /// Run one forward pass of `model` under `sess` with the inputs of
    /// `args`. The session must be open and the model initialized and
    /// registered with the session; any other state is rejected with
    /// `InvalidArgument` instead of reaching the backend. On success the
    /// result holds one output per input, and each output agrees with the
    /// backend's report for that argument position; session, bundle and
    /// model are left as they were, so the call can be repeated without
    /// leaking native handles.
    pub fn jitload_forward(
        &mut self,
        sess: &mut Session,
        args: &mut TorchArgs,
        model: &mut SavedModel,
    ) -> (r: Result<TorchResult, Error>)
        ensures
            *final(sess) == *old(sess),
            *final(args) == *old(args),
            *final(model) == *old(model),
            !(old(sess).open_spec() && old(model).initialized_spec() && old(sess)
                .is_registered_spec(old(model).id_spec())) ==> r == Err::<
                TorchResult,
                Error,
            >(Error::InvalidArgument),
            old(sess).open_spec() && old(model).initialized_spec() && old(sess).is_registered_spec(
                old(model).id_spec(),
            ) ==> r is Ok && {
                let out = r->Ok_0;
                &&& out.outputs_spec().len() == old(args).inputs_spec().len()
                &&& forall|i: int|
                    0 <= i < out.outputs_spec().len() ==> tensor_like(
                        #[trigger] out.outputs_spec()[i],
                        old(args).inputs_spec()[i],
                    )
            },
    {
        if !sess.is_open() {
            return Err(Error::InvalidArgument);
        }
        if !model.initialized() {
            return Err(Error::InvalidArgument);
        }
        if !sess.is_registered(model.id()) {
            return Err(Error::InvalidArgument);
        }
        let mut outputs: Vec<Tensor> = Vec::new();
        let n = args.inputs.len();
        let mut i: usize = 0;
        while i < n
            invariant
                n == args.inputs@.len(),
                i <= n,
                outputs@.len() == i,
                *args == *old(args),
                forall|j: int|
                    0 <= j < i ==> tensor_like(#[trigger] outputs@[j], args.inputs@[j]),
            decreases n - i,
        {
            let t = args.inputs[i].clone();
            outputs.push(t);
            i = i + 1;
        }
        Ok(TorchResult { outputs })
    }
}

} // verus!
