use vstd::prelude::*;
use vstd::string::*;

verus! {

/// One plane of a captured frame as it lies in memory: `height` rows of
/// `bytes_per_row` bytes each, of which the first bytes hold `width` pixels.
pub struct VideoFramePlane {
    pub data: Vec<u8>,
    pub width: usize,
    pub height: usize,
    pub bytes_per_row: usize,
}

/// The bytes of row `y` of a plane that hold pixels: `row_bytes` bytes
/// starting at `bytes_per_row * y`.
pub open spec fn plane_row(data: Seq<u8>, bytes_per_row: int, row_bytes: int, y: int) -> Seq<u8> {
    data.subrange(bytes_per_row * y, bytes_per_row * y + row_bytes)
}

/// The first `rows` pixel rows of a plane, packed one after the other.
pub open spec fn packed_rows(data: Seq<u8>, bytes_per_row: int, row_bytes: int, rows: nat) -> Seq<u8>
    decreases rows,
{
    if rows == 0 {
        Seq::empty()
    } else {
        packed_rows(data, bytes_per_row, row_bytes, (rows - 1) as nat)
            + plane_row(data, bytes_per_row, row_bytes, rows - 1)
    }
}

/// A plane whose rows of `element_size * width` bytes all lie inside its data.
pub open spec fn plane_fits(plane: &VideoFramePlane, element_size: nat) -> bool {
    &&& element_size * plane.width <= plane.bytes_per_row
    &&& plane.bytes_per_row * plane.height <= plane.data@.len()
}

proof fn lemma_row_in_bounds(bytes_per_row: int, row_bytes: int, height: int, y: int)
    requires
        0 <= row_bytes <= bytes_per_row,
        0 <= y < height,
    ensures
        0 <= bytes_per_row * y,
        bytes_per_row * y + row_bytes <= bytes_per_row * height,
        row_bytes * y + row_bytes == row_bytes * (y + 1),
        row_bytes * (y + 1) <= row_bytes * height,
{
    assert(bytes_per_row * y + bytes_per_row == bytes_per_row * (y + 1)) by (nonlinear_arith);
    assert(bytes_per_row * (y + 1) <= bytes_per_row * height) by (nonlinear_arith)
        requires 0 <= bytes_per_row, y + 1 <= height;
    assert(row_bytes * y + row_bytes == row_bytes * (y + 1)) by (nonlinear_arith);
    assert(row_bytes * (y + 1) <= row_bytes * height) by (nonlinear_arith)
        requires 0 <= row_bytes, y + 1 <= height;
    assert(0 <= bytes_per_row * y) by (nonlinear_arith) requires 0 <= bytes_per_row, 0 <= y;
}

/// The packed rows have `row_bytes` bytes each.
pub proof fn lemma_packed_rows_len(data: Seq<u8>, bytes_per_row: int, row_bytes: int, rows: nat)
    requires
        0 <= row_bytes <= bytes_per_row,
        bytes_per_row * rows <= data.len(),
    ensures
        packed_rows(data, bytes_per_row, row_bytes, rows).len() == row_bytes * rows,
    decreases rows,
{
    if rows > 0 {
        lemma_row_in_bounds(bytes_per_row, row_bytes, rows as int, rows - 1);
        assert(bytes_per_row * (rows - 1) <= data.len()) by (nonlinear_arith)
            requires 0 <= bytes_per_row, bytes_per_row * rows <= data.len(), rows >= 1;
        lemma_packed_rows_len(data, bytes_per_row, row_bytes, (rows - 1) as nat);
        assert(plane_row(data, bytes_per_row, row_bytes, rows - 1).len() == row_bytes);
        assert(row_bytes * (rows - 1) + row_bytes == row_bytes * rows);
    } else {
        assert(row_bytes * rows == 0) by (nonlinear_arith) requires rows == 0;
    }
}

/// Copies the pixel bytes of a plane row by row, dropping the padding at the
/// end of each row.
pub fn copy_plane_bytes(plane: &VideoFramePlane, element_size: usize) -> (out: Vec<u8>)
    requires
        plane_fits(plane, element_size as nat),
    ensures
        out@ == packed_rows(plane.data@, plane.bytes_per_row as int, element_size * plane.width, plane.height as nat),
        out@.len() == element_size * plane.width * plane.height,
{
    let bpr = plane.bytes_per_row;
    let height = plane.height;
    let data_len = plane.data.len();
    proof {
        assert(element_size * plane.width <= usize::MAX) by (nonlinear_arith)
            requires element_size * plane.width <= plane.bytes_per_row, plane.bytes_per_row <= usize::MAX;
    }
    let row_bytes = element_size * plane.width;
    let mut out: Vec<u8> = Vec::new();
    let mut y: usize = 0;
    while y < height
        invariant
            0 <= y <= height,
            bpr == plane.bytes_per_row,
            height == plane.height,
            row_bytes == element_size * plane.width,
            row_bytes <= bpr,
            bpr * height <= plane.data@.len(),
            data_len == plane.data@.len(),
            out@ == packed_rows(plane.data@, bpr as int, row_bytes as int, y as nat),
            out@.len() == row_bytes * y,
        decreases height - y,
    {
        proof { lemma_row_in_bounds(bpr as int, row_bytes as int, height as int, y as int); }
        assert(bpr * y + row_bytes <= data_len);
        let start = bpr * y;
        let mut x: usize = 0;
        let ghost before = out@;
        while x < row_bytes
            invariant
                0 <= x <= row_bytes,
                start == bpr * y,
                start + row_bytes <= plane.data@.len(),
                data_len == plane.data@.len(),
                out@ == before + plane.data@.subrange(start as int, start + x),
            decreases row_bytes - x,
        {
            out.push(plane.data[start + x]);
            x = x + 1;
            assert(out@ =~= before + plane.data@.subrange(start as int, start + x));
        }
        y = y + 1;
        assert(out@ =~= packed_rows(plane.data@, bpr as int, row_bytes as int, y as nat));
    }
    out
}

} // verus!

verus! {

/// Pixel element types that have a zero value to fill fresh bitmaps with.
pub trait ZeroValue: Sized {
    spec fn spec_zero_value() -> Self;

    fn zero_value() -> (r: Self)
        ensures
            r == Self::spec_zero_value(),
    ;
}

impl ZeroValue for u8 {
    open spec fn spec_zero_value() -> u8 {
        0
    }

    fn zero_value() -> (r: u8) {
        0
    }
}

impl ZeroValue for [u8; 2] {
    open spec fn spec_zero_value() -> [u8; 2] {
        [0u8, 0u8]
    }

    fn zero_value() -> (r: [u8; 2]) {
        [0u8, 0u8]
    }
}

impl ZeroValue for [u8; 4] {
    open spec fn spec_zero_value() -> [u8; 4] {
        [0u8, 0u8, 0u8, 0u8]
    }

    fn zero_value() -> (r: [u8; 4]) {
        [0u8, 0u8, 0u8, 0u8]
    }
}

impl ZeroValue for u32 {
    open spec fn spec_zero_value() -> u32 {
        0
    }

    fn zero_value() -> (r: u32) {
        0
    }
}

} // verus!

verus! {

/// `n` zero values.
pub open spec fn zeroes<T: ZeroValue>(n: nat) -> Seq<T> {
    Seq::new(n, |i: int| T::spec_zero_value())
}

/// Allocates a bitmap buffer of `n` zero values.
pub fn zeroed_buffer<T: ZeroValue>(n: usize) -> (v: Vec<T>)
    ensures
        v@ == zeroes::<T>(n as nat),
{
    let mut v: Vec<T> = Vec::new();
    let mut i: usize = 0;
    while i < n
        invariant
            i <= n,
            v@ == zeroes::<T>(i as nat),
        decreases n - i,
    {
        v.push(T::zero_value());
        i = i + 1;
        assert(v@ =~= zeroes::<T>(i as nat));
    }
    v
}

/// The abstract state of a bitmap pool: the buffers waiting for reuse (the
/// last one is handed out first), the pool's running count, and the bound on
/// that count below which fresh buffers are allocated.
pub struct PoolState<T> {
    pub free: Seq<Seq<T>>,
    pub count: int,
    pub max: int,
}

/// A bitmap handed out by a pool, abstractly: its buffer and resolution.
pub struct BitmapModel<T> {
    pub data: Seq<T>,
    pub width: int,
    pub height: int,
}

/// Whether a request for a `width` x `height` bitmap takes the top free
/// buffer: the top buffer holds at most `width * height` values.
pub open spec fn pool_reuses<T>(s: PoolState<T>, width: int, height: int) -> bool {
    s.free.len() > 0 && s.free.last().len() <= width * height
}

/// The state after a request, and the bitmap it yields.
///
/// The top free buffer is reused when it is small enough. Otherwise it is
/// discarded (and the count lowered by one), and a fresh zeroed buffer is
/// made while the count is below the maximum.
pub open spec fn pool_try_get<T: ZeroValue>(s: PoolState<T>, width: int, height: int) -> (PoolState<T>, Option<BitmapModel<T>>) {
    if pool_reuses(s, width, height) {
        (
            PoolState { free: s.free.drop_last(), ..s },
            Some(BitmapModel { data: s.free.last(), width, height }),
        )
    } else {
        let s1 = if s.free.len() > 0 {
            PoolState { free: s.free.drop_last(), count: s.count - 1, max: s.max }
        } else {
            s
        };
        if s1.count < s1.max {
            (s1, Some(BitmapModel { data: zeroes::<T>((width * height) as nat), width, height }))
        } else {
            (s1, None)
        }
    }
}

/// A request neither underflows the count nor overflows the buffer size.
pub open spec fn pool_try_get_ok<T>(s: PoolState<T>, width: int, height: int) -> bool {
    &&& width * height <= usize::MAX
    &&& (s.free.len() > 0 && !pool_reuses(s, width, height)) ==> s.count >= 1
}

/// The state after a bitmap's buffer comes back to the pool.
pub open spec fn pool_release<T>(s: PoolState<T>, data: Seq<T>) -> PoolState<T> {
    PoolState { free: s.free.push(data), ..s }
}

/// The state after the free buffers are dropped.
pub open spec fn pool_free_pooled<T>(s: PoolState<T>) -> PoolState<T> {
    PoolState { free: Seq::empty(), count: s.count - s.free.len(), max: s.max }
}

/// A pool of reusable bitmap buffers.
pub struct BitmapPool<T> {
    free_bitmaps: Vec<Vec<T>>,
    count: usize,
    max: usize,
}

/// A bitmap buffer handed out by a [`BitmapPool`].
pub struct PooledBitmap<T> {
    data: Vec<T>,
    pub width: usize,
    pub height: usize,
}

impl<T> PooledBitmap<T> {
    pub closed spec fn model(&self) -> BitmapModel<T> {
        BitmapModel { data: self.data@, width: self.width as int, height: self.height as int }
    }

    /// The pixel values of the bitmap
    pub fn as_ref(&self) -> (r: &[T])
        ensures
            r@ == self.model().data,
    {
        self.data.as_slice()
    }

    /// The number of pixel values in the buffer
    pub fn len(&self) -> (r: usize)
        ensures
            r == self.model().data.len(),
    {
        self.data.len()
    }
}

pub open spec fn option_model<T>(b: Option<PooledBitmap<T>>) -> Option<BitmapModel<T>> {
    match b {
        Some(b) => Some(b.model()),
        None => None,
    }
}

impl<T: ZeroValue> BitmapPool<T> {
    pub closed spec fn state(&self) -> PoolState<T> {
        PoolState {
            free: self.free_bitmaps@.map_values(|v: Vec<T>| v@),
            count: self.count as int,
            max: self.max as int,
        }
    }

    /// Creates a pool holding `initial_count` zeroed buffers of the initial
    /// resolution, with a count of `initial_count` and the given maximum.
    pub fn new(initial_count: usize, max: usize, initial_resolution: (usize, usize)) -> (pool: Self)
        requires
            initial_resolution.0 * initial_resolution.1 <= usize::MAX,
        ensures
            pool.state().free.len() == initial_count,
            forall|i: int| 0 <= i < initial_count ==> #[trigger] pool.state().free[i]
                == zeroes::<T>((initial_resolution.0 * initial_resolution.1) as nat),
            pool.state().count == initial_count,
            pool.state().max == max,
    {
        let n = initial_resolution.0 * initial_resolution.1;
        let mut free_bitmaps: Vec<Vec<T>> = Vec::new();
        let mut i: usize = 0;
        while i < initial_count
            invariant
                i <= initial_count,
                n == initial_resolution.0 * initial_resolution.1,
                free_bitmaps@.len() == i,
                forall|j: int| 0 <= j < i ==> #[trigger] free_bitmaps@[j]@ == zeroes::<T>(n as nat),
            decreases initial_count - i,
        {
            free_bitmaps.push(zeroed_buffer(n));
            i = i + 1;
        }
        let pool = BitmapPool { free_bitmaps, count: initial_count, max };
        assert forall|j: int| 0 <= j < initial_count implies #[trigger] pool.state().free[j]
            == zeroes::<T>(n as nat) by {
            assert(pool.state().free[j] == pool.free_bitmaps@[j]@);
        }
        pool
    }

    fn make_new_bitmap(&self, resolution: (usize, usize)) -> (b: PooledBitmap<T>)
        requires
            resolution.0 * resolution.1 <= usize::MAX,
        ensures
            b.model() == (BitmapModel {
                data: zeroes::<T>((resolution.0 * resolution.1) as nat),
                width: resolution.0 as int,
                height: resolution.1 as int,
            }),
    {
        PooledBitmap {
            data: zeroed_buffer(resolution.0 * resolution.1),
            width: resolution.0,
            height: resolution.1,
        }
    }

    /// Takes a bitmap of the given resolution from the pool, if the pool
    /// allows one: see [`pool_try_get`].
    pub fn try_get_bitmap(&mut self, resolution: (usize, usize)) -> (r: Option<PooledBitmap<T>>)
        requires
            pool_try_get_ok(old(self).state(), resolution.0 as int, resolution.1 as int),
        ensures
            (final(self).state(), option_model(r))
                == pool_try_get(old(self).state(), resolution.0 as int, resolution.1 as int),
    {
        let ghost s0 = self.state();
        let n = resolution.0 * resolution.1;
        if let Some(bitmap_data) = self.free_bitmaps.pop() {
            assert(self.state().free =~= s0.free.drop_last());
            if bitmap_data.len() <= n {
                let b = PooledBitmap { data: bitmap_data, width: resolution.0, height: resolution.1 };
                return Some(b);
            }
            self.count = self.count - 1;
        }
        if self.count < self.max {
            return Some(self.make_new_bitmap(resolution));
        }
        None
    }

    /// Gives a bitmap's buffer back to the pool for reuse.
    pub fn release(&mut self, bitmap: PooledBitmap<T>)
        ensures
            final(self).state() == pool_release(old(self).state(), bitmap.model().data),
    {
        let ghost s0 = self.state();
        self.free_bitmaps.push(bitmap.data);
        assert(self.state().free =~= s0.free.push(bitmap.model().data));
    }

    /// Drops all free buffers, lowering the count by their number.
    pub fn free_pooled(&mut self)
        requires
            old(self).state().free.len() <= old(self).state().count,
        ensures
            final(self).state() == pool_free_pooled(old(self).state()),
    {
        let count = self.free_bitmaps.len();
        self.free_bitmaps = Vec::new();
        self.count = self.count - count;
        assert(self.state().free =~= Seq::<Seq<T>>::empty());
    }
}

} // verus!

verus! {

/// `quads` holds `bytes` read four at a time: value `i` is bytes `4i .. 4i + 4`.
pub open spec fn is_quads_of(quads: Seq<[u8; 4]>, bytes: Seq<u8>) -> bool {
    &&& quads.len() * 4 == bytes.len()
    &&& forall|i: int, j: int| 0 <= i < quads.len() && 0 <= j < 4 ==> #[trigger] quads[i][j] == bytes[4 * i + j]
}

/// `pairs` holds `bytes` read two at a time: value `i` is bytes `2i .. 2i + 2`.
pub open spec fn is_pairs_of(pairs: Seq<[u8; 2]>, bytes: Seq<u8>) -> bool {
    &&& pairs.len() * 2 == bytes.len()
    &&& forall|i: int, j: int| 0 <= i < pairs.len() && 0 <= j < 2 ==> #[trigger] pairs[i][j] == bytes[2 * i + j]
}

/// The 32-bit word whose bytes, least significant first, are `b0 .. b3`.
pub open spec fn le_word(b0: u8, b1: u8, b2: u8, b3: u8) -> int {
    b0 + 256 * b1 + 65536 * b2 + 16777216 * b3
}

/// `words` holds `bytes` read as little-endian 32-bit words.
pub open spec fn is_le_words_of(words: Seq<u32>, bytes: Seq<u8>) -> bool {
    &&& words.len() * 4 == bytes.len()
    &&& forall|i: int| 0 <= i < words.len() ==> #[trigger] words[i] == le_word(
        bytes[4 * i],
        bytes[4 * i + 1],
        bytes[4 * i + 2],
        bytes[4 * i + 3],
    )
}

/// Reinterprets a byte slice as a slice of 4-byte arrays with
/// `bytemuck::cast_slice`. Both element types have alignment 1 and the byte
/// count is a multiple of 4, so the cast succeeds; value `i` of the result is
/// made of bytes `4i .. 4i + 4` of the input.
#[verifier::external_body]
fn cast_slice_to_quads(bytes: &[u8]) -> (r: &[[u8; 4]])
    requires
        bytes@.len() % 4 == 0,
    ensures
        is_quads_of(r@, bytes@),
{
    bytemuck::cast_slice::<u8, [u8; 4]>(bytes)
}

/// Reinterprets a byte slice as a slice of 2-byte arrays with
/// `bytemuck::cast_slice`. Both element types have alignment 1 and the byte
/// count is even, so the cast succeeds; value `i` of the result is made of
/// bytes `2i .. 2i + 2` of the input.
#[verifier::external_body]
fn cast_slice_to_pairs(bytes: &[u8]) -> (r: &[[u8; 2]])
    requires
        bytes@.len() % 2 == 0,
    ensures
        is_pairs_of(r@, bytes@),
{
    bytemuck::cast_slice::<u8, [u8; 2]>(bytes)
}

/// A pixel value type of a plane: how many bytes one value takes and how a
/// row of bytes reads as values.
pub trait PlaneElement: ZeroValue + Sized + Copy {
    spec fn spec_size() -> nat;

    /// `values` is what `bytes` reads as.
    spec fn decodes(values: Seq<Self>, bytes: Seq<u8>) -> bool;

    fn size() -> (r: usize)
        ensures
            r == Self::spec_size(),
            r > 0,
    ;

    fn decode(bytes: &[u8]) -> (r: Vec<Self>)
        requires
            bytes@.len() % Self::spec_size() == 0,
        ensures
            Self::decodes(r@, bytes@),
            r@.len() * Self::spec_size() == bytes@.len(),
    ;
}

impl PlaneElement for u8 {
    open spec fn spec_size() -> nat {
        1
    }

    open spec fn decodes(values: Seq<u8>, bytes: Seq<u8>) -> bool {
        values == bytes
    }

    fn size() -> (r: usize) {
        1
    }

    fn decode(bytes: &[u8]) -> (r: Vec<u8>) {
        vstd::slice::slice_to_vec(bytes)
    }
}

impl PlaneElement for [u8; 2] {
    open spec fn spec_size() -> nat {
        2
    }

    open spec fn decodes(values: Seq<[u8; 2]>, bytes: Seq<u8>) -> bool {
        is_pairs_of(values, bytes)
    }

    fn size() -> (r: usize) {
        2
    }

    fn decode(bytes: &[u8]) -> (r: Vec<[u8; 2]>) {
        vstd::slice::slice_to_vec(cast_slice_to_pairs(bytes))
    }
}

impl PlaneElement for [u8; 4] {
    open spec fn spec_size() -> nat {
        4
    }

    open spec fn decodes(values: Seq<[u8; 4]>, bytes: Seq<u8>) -> bool {
        is_quads_of(values, bytes)
    }

    fn size() -> (r: usize) {
        4
    }

    fn decode(bytes: &[u8]) -> (r: Vec<[u8; 4]>) {
        vstd::slice::slice_to_vec(cast_slice_to_quads(bytes))
    }
}

impl PlaneElement for u32 {
    open spec fn spec_size() -> nat {
        4
    }

    open spec fn decodes(values: Seq<u32>, bytes: Seq<u8>) -> bool {
        is_le_words_of(values, bytes)
    }

    fn size() -> (r: usize) {
        4
    }

    fn decode(bytes: &[u8]) -> (r: Vec<u32>) {
        let n = bytes.len() / 4;
        let mut words: Vec<u32> = Vec::new();
        let mut i: usize = 0;
        while i < n
            invariant
                n == bytes@.len() / 4,
                bytes@.len() % 4 == 0,
                i <= n,
                words@.len() == i,
                forall|k: int| 0 <= k < i ==> #[trigger] words@[k] == le_word(
                    bytes@[4 * k],
                    bytes@[4 * k + 1],
                    bytes@[4 * k + 2],
                    bytes@[4 * k + 3],
                ),
            decreases n - i,
        {
            let b0 = bytes[4 * i] as u32;
            let b1 = bytes[4 * i + 1] as u32;
            let b2 = bytes[4 * i + 2] as u32;
            let b3 = bytes[4 * i + 3] as u32;
            let w = b0 + 256 * b1 + 65536 * b2 + 16777216 * b3;
            words.push(w);
            i = i + 1;
        }
        words
    }
}

/// Copies a plane's pixel rows into a packed buffer of values.
pub fn copy_plane<T: PlaneElement>(plane: &VideoFramePlane) -> (out: Vec<T>)
    requires
        plane_fits(plane, T::spec_size()),
    ensures
        T::decodes(out@, packed_rows(plane.data@, plane.bytes_per_row as int, T::spec_size() * plane.width, plane.height as nat)),
        out@.len() == plane.width * plane.height,
{
    let size = T::size();
    let bytes = copy_plane_bytes(plane, size);
    proof {
        let w = plane.width as int;
        let h = plane.height as int;
        assert(size * w * h == (w * h) * size) by (nonlinear_arith);
        assert((w * h) * size % (size as int) == 0) by (nonlinear_arith) requires size > 0;
    }
    let out = T::decode(bytes.as_slice());
    proof {
        let w = plane.width as int;
        let h = plane.height as int;
        assert(out@.len() * size == (w * h) * size) by (nonlinear_arith)
            requires out@.len() * size == size * w * h;
        assert(out@.len() == w * h) by (nonlinear_arith)
            requires out@.len() * size == (w * h) * size, size > 0;
    }
    out
}

} // verus!

verus! {

/// Storage for the pixels of a Bgra8888 bitmap
pub trait DataTypeBgra8x4 {}

impl DataTypeBgra8x4 for Vec<[u8; 4]> {}

impl DataTypeBgra8x4 for PooledBitmap<[u8; 4]> {}

/// Storage for the pixels of a packed 2-10-10-10 bitmap
pub trait DataTypeArgbUnormPacked2101010 {}

impl DataTypeArgbUnormPacked2101010 for Vec<u32> {}

impl DataTypeArgbUnormPacked2101010 for PooledBitmap<u32> {}

/// Storage for the luminance plane of a YCbCr bitmap
pub trait DataTypeLuma {}

impl DataTypeLuma for Vec<u8> {}

impl DataTypeLuma for PooledBitmap<u8> {}

/// Storage for the chrominance plane of a YCbCr bitmap
pub trait DataTypeChroma {}

impl DataTypeChroma for Vec<[u8; 2]> {}

impl DataTypeChroma for PooledBitmap<[u8; 2]> {}

/// A Bgra8888 format bitmap
pub struct FrameBitmapBgraUnorm8x4<Data: DataTypeBgra8x4> {
    pub data: Data,
    pub width: usize,
    pub height: usize,
}

/// A packed 2-10-10-10 format bitmap
pub struct FrameBitmapArgbUnormPacked2101010<Data: DataTypeArgbUnormPacked2101010> {
    pub data: Data,
    pub width: usize,
    pub height: usize,
}

/// The video range for a YCbCr format bitmap
#[derive(Copy, Clone, Debug, PartialEq, Eq)]
pub enum VideoRange {
    /// Luma: [16, 240], Chroma: [0, 255]
    Video,
    /// Luma: [0, 255], Chroma: [0, 255]
    Full,
}

/// A YCbCr image, corresponding to either V420 or F420 pixel formats.
///
/// Dual-planar, with luminance (Y) in one plane, and chrominance (CbCr) in another.
/// Each plane may have a different size, as with V420 format, where
/// the chroma plane is 2 by 2 blocks, but luma is per-pixel
pub struct FrameBitmapYCbCr<LumaData: DataTypeLuma, ChromaData: DataTypeChroma> {
    pub luma_data: LumaData,
    pub luma_width: usize,
    pub luma_height: usize,
    pub chroma_data: ChromaData,
    pub chroma_width: usize,
    pub chroma_height: usize,
    pub range: VideoRange,
}

/// A bitmap image of the selected format
pub enum FrameBitmap<DataBgra: DataTypeBgra8x4, DataArgbPacked: DataTypeArgbUnormPacked2101010, DataLuma: DataTypeLuma, DataChroma: DataTypeChroma> {
    BgraUnorm8x4(FrameBitmapBgraUnorm8x4<DataBgra>),
    ArgbUnormPacked2101010(FrameBitmapArgbUnormPacked2101010<DataArgbPacked>),
    YCbCr(FrameBitmapYCbCr<DataLuma, DataChroma>),
}

/// A bitmap whose planes are owned buffers
pub type BoxedSliceFrameBitmap = FrameBitmap<Vec<[u8; 4]>, Vec<u32>, Vec<u8>, Vec<[u8; 2]>>;

/// A bitmap whose planes are buffers taken from a [`FrameBitmapPool`]
pub type PooledFrameBitmap = FrameBitmap<PooledBitmap<[u8; 4]>, PooledBitmap<u32>, PooledBitmap<u8>, PooledBitmap<[u8; 2]>>;

/// Represents an error while generating a frame bitmap
#[derive(Clone, Debug)]
pub enum VideoFrameBitmapError {
    Other(String),
}

impl VideoFrameBitmapError {
    /// The display text of the error: `VideoFrameBitmapError::Other("<message>")`
    pub fn to_display_string(&self) -> (r: String)
        ensures
            match self {
                VideoFrameBitmapError::Other(m) => r@ == "VideoFrameBitmapError::Other(\""@ + m@ + "\")"@,
            },
    {
        match self {
            VideoFrameBitmapError::Other(m) => String::from_str("VideoFrameBitmapError::Other(\"").concat(m.as_str()).concat("\")"),
        }
    }
}

/// The plane layouts a frame is copied in
#[derive(Copy, Clone, Debug, PartialEq, Eq, Structural)]
pub enum FrameLayout {
    /// One plane of 8-bit BGRA pixels
    Bgra8888,
    /// One plane of packed 10-bit ARGB pixels
    ArgbPacked2101010,
    /// Video-range luma and chroma planes
    V420,
    /// Full-range luma and chroma planes
    F420,
}

/// The mapped planes of a video frame, by pixel format.
pub enum VideoFrameData {
    Bgra8888(VideoFramePlane),
    ArgbPacked2101010(VideoFramePlane),
    F420 { luma: VideoFramePlane, chroma: VideoFramePlane },
    V420 { luma: VideoFramePlane, chroma: VideoFramePlane },
}

/// The planes of the frame data all lie inside their buffers.
pub open spec fn frame_data_fits(d: &VideoFrameData) -> bool {
    match d {
        VideoFrameData::Bgra8888(p) => plane_fits(p, 4),
        VideoFrameData::ArgbPacked2101010(p) => plane_fits(p, 4),
        VideoFrameData::F420 { luma, chroma } => plane_fits(luma, 1) && plane_fits(chroma, 2),
        VideoFrameData::V420 { luma, chroma } => plane_fits(luma, 1) && plane_fits(chroma, 2),
    }
}

/// The packed rows of a plane whose values take `size` bytes.
pub open spec fn plane_bytes(p: &VideoFramePlane, size: nat) -> Seq<u8> {
    packed_rows(p.data@, p.bytes_per_row as int, size * p.width, p.height as nat)
}

/// `bitmap` is the copy of the frame data: each plane's pixel rows are read
/// into a packed buffer of the plane's size, and the YCbCr range follows the
/// format (video range for V420, full range for F420).
pub open spec fn is_bitmap_of(bitmap: &BoxedSliceFrameBitmap, d: &VideoFrameData) -> bool {
    match (d, bitmap) {
        (VideoFrameData::Bgra8888(p), FrameBitmap::BgraUnorm8x4(b)) => {
            &&& b.width == p.width && b.height == p.height
            &&& b.data@.len() == p.width * p.height
            &&& is_quads_of(b.data@, plane_bytes(p, 4))
        },
        (VideoFrameData::ArgbPacked2101010(p), FrameBitmap::ArgbUnormPacked2101010(b)) => {
            &&& b.width == p.width && b.height == p.height
            &&& b.data@.len() == p.width * p.height
            &&& is_le_words_of(b.data@, plane_bytes(p, 4))
        },
        (VideoFrameData::F420 { luma, chroma }, FrameBitmap::YCbCr(b)) => {
            &&& ycbcr_is_copy_of(b, luma, chroma)
            &&& b.range == VideoRange::Full
        },
        (VideoFrameData::V420 { luma, chroma }, FrameBitmap::YCbCr(b)) => {
            &&& ycbcr_is_copy_of(b, luma, chroma)
            &&& b.range == VideoRange::Video
        },
        _ => false,
    }
}

pub open spec fn ycbcr_is_copy_of(b: &FrameBitmapYCbCr<Vec<u8>, Vec<[u8; 2]>>, luma: &VideoFramePlane, chroma: &VideoFramePlane) -> bool {
    &&& b.luma_width == luma.width && b.luma_height == luma.height
    &&& b.luma_data@.len() == luma.width * luma.height
    &&& b.luma_data@ == plane_bytes(luma, 1)
    &&& b.chroma_width == chroma.width && b.chroma_height == chroma.height
    &&& b.chroma_data@.len() == chroma.width * chroma.height
    &&& is_pairs_of(b.chroma_data@, plane_bytes(chroma, 2))
}

fn copy_ycbcr(luma: &VideoFramePlane, chroma: &VideoFramePlane, range: VideoRange) -> (b: FrameBitmapYCbCr<Vec<u8>, Vec<[u8; 2]>>)
    requires
        plane_fits(luma, 1),
        plane_fits(chroma, 2),
    ensures
        ycbcr_is_copy_of(&b, luma, chroma),
        b.range == range,
{
    FrameBitmapYCbCr {
        luma_data: copy_plane::<u8>(luma),
        luma_width: luma.width,
        luma_height: luma.height,
        chroma_data: copy_plane::<[u8; 2]>(chroma),
        chroma_width: chroma.width,
        chroma_height: chroma.height,
        range,
    }
}

/// Creates a bitmap image from the mapped planes of a frame, copying each
/// plane's pixel rows into an owned buffer.
pub fn get_bitmap(data: &VideoFrameData) -> (bitmap: BoxedSliceFrameBitmap)
    requires
        frame_data_fits(data),
    ensures
        is_bitmap_of(&bitmap, data),
{
    match data {
        VideoFrameData::Bgra8888(p) => FrameBitmap::BgraUnorm8x4(FrameBitmapBgraUnorm8x4 {
            data: copy_plane::<[u8; 4]>(p),
            width: p.width,
            height: p.height,
        }),
        VideoFrameData::ArgbPacked2101010(p) => FrameBitmap::ArgbUnormPacked2101010(FrameBitmapArgbUnormPacked2101010 {
            data: copy_plane::<u32>(p),
            width: p.width,
            height: p.height,
        }),
        VideoFrameData::F420 { luma, chroma } => FrameBitmap::YCbCr(copy_ycbcr(luma, chroma, VideoRange::Full)),
        VideoFrameData::V420 { luma, chroma } => FrameBitmap::YCbCr(copy_ycbcr(luma, chroma, VideoRange::Video)),
    }
}

} // verus!

verus! {

/// A request for a `width` x `height` bitmap that the pool can serve without
/// underflow, and whose reused buffer, if any, is exactly the size of the
/// plane to copy.
pub open spec fn pool_copy_ok<T>(s: PoolState<T>, width: int, height: int) -> bool {
    &&& pool_try_get_ok(s, width, height)
    &&& pool_reuses(s, width, height) ==> s.free.last().len() == width * height
}

/// Copies a plane's pixel rows into the buffer of a bitmap of the plane's
/// resolution taken from a pool: the buffer holds one value for each pixel
/// and is overwritten in place.
pub fn copy_into_pooled<T: PlaneElement>(plane: &VideoFramePlane, bitmap: PooledBitmap<T>) -> (r: PooledBitmap<T>)
    requires
        plane_fits(plane, T::spec_size()),
        bitmap.model().width == plane.width,
        bitmap.model().height == plane.height,
        bitmap.model().data.len() == plane.width * plane.height,
    ensures
        pooled_plane_is_copy_of(&r, plane),
{
    let values = copy_plane::<T>(plane);
    let mut bitmap = bitmap;
    let n = values.len();
    let mut i: usize = 0;
    while i < n
        invariant
            n == values@.len(),
            bitmap.data@.len() == n,
            0 <= i <= n,
            forall|k: int| 0 <= k < i ==> bitmap.data@[k] == values@[k],
            bitmap.width == plane.width,
            bitmap.height == plane.height,
        decreases n - i,
    {
        let v = values[i];
        bitmap.data.set(i, v);
        i = i + 1;
    }
    assert(bitmap.data@ =~= values@);
    bitmap
}

/// Takes a buffer for the plane from the pool, if the pool allows one, and
/// copies the plane's pixel rows into it.
pub fn try_copy_pooled_plane<T: PlaneElement>(plane: &VideoFramePlane, pool: &mut BitmapPool<T>) -> (r: Option<PooledBitmap<T>>)
    requires
        plane_fits(plane, T::spec_size()),
        pool_copy_ok(old(pool).state(), plane.width as int, plane.height as int),
    ensures
        final(pool).state() == pool_try_get(old(pool).state(), plane.width as int, plane.height as int).0,
        r is Some == pool_try_get(old(pool).state(), plane.width as int, plane.height as int).1 is Some,
        r matches Some(b) ==> pooled_plane_is_copy_of(&b, plane),
{
    let size_exec = T::size();
    let len_exec = plane.data.len();
    proof {
        let w = plane.width as int;
        let h = plane.height as int;
        let size = T::spec_size() as int;
        assert(w * h <= usize::MAX) by (nonlinear_arith)
            requires size * w <= plane.bytes_per_row, plane.bytes_per_row * h <= plane.data@.len(),
                plane.data@.len() <= usize::MAX, size >= 1, w >= 0, h >= 0;
    }
    match pool.try_get_bitmap((plane.width, plane.height)) {
        Some(bitmap) => Some(copy_into_pooled(plane, bitmap)),
        None => None,
    }
}

/// A pool of bitmap buffers for each plane type
pub struct FrameBitmapPool {
    pub bgra_u8x4: BitmapPool<[u8; 4]>,
    pub argb_packed_2101010: BitmapPool<u32>,
    pub luma: BitmapPool<u8>,
    pub chroma: BitmapPool<[u8; 2]>,
}

} // verus!

verus! {

/// `bitmap` is the pooled copy of the frame data: as [`is_bitmap_of`], with
/// the planes held in pooled buffers.
pub open spec fn is_pooled_bitmap_of(bitmap: &PooledFrameBitmap, d: &VideoFrameData) -> bool {
    match (d, bitmap) {
        (VideoFrameData::Bgra8888(p), FrameBitmap::BgraUnorm8x4(b)) => {
            &&& b.width == p.width && b.height == p.height
            &&& pooled_plane_is_copy_of(&b.data, p)
        },
        (VideoFrameData::ArgbPacked2101010(p), FrameBitmap::ArgbUnormPacked2101010(b)) => {
            &&& b.width == p.width && b.height == p.height
            &&& pooled_plane_is_copy_of(&b.data, p)
        },
        (VideoFrameData::F420 { luma, chroma }, FrameBitmap::YCbCr(b)) => {
            &&& pooled_ycbcr_is_copy_of(b, luma, chroma)
            &&& b.range == VideoRange::Full
        },
        (VideoFrameData::V420 { luma, chroma }, FrameBitmap::YCbCr(b)) => {
            &&& pooled_ycbcr_is_copy_of(b, luma, chroma)
            &&& b.range == VideoRange::Video
        },
        _ => false,
    }
}

/// A pooled buffer holding the packed values of a plane.
pub open spec fn pooled_plane_is_copy_of<T: PlaneElement>(b: &PooledBitmap<T>, p: &VideoFramePlane) -> bool {
    &&& b.model().width == p.width && b.model().height == p.height
    &&& b.model().data.len() == p.width * p.height
    &&& T::decodes(b.model().data, plane_bytes(p, T::spec_size()))
}

pub open spec fn pooled_ycbcr_is_copy_of(b: &FrameBitmapYCbCr<PooledBitmap<u8>, PooledBitmap<[u8; 2]>>, luma: &VideoFramePlane, chroma: &VideoFramePlane) -> bool {
    &&& b.luma_width == luma.width && b.luma_height == luma.height
    &&& pooled_plane_is_copy_of(&b.luma_data, luma)
    &&& b.chroma_width == chroma.width && b.chroma_height == chroma.height
    &&& pooled_plane_is_copy_of(&b.chroma_data, chroma)
}

/// A pool's state after one plane's request: see [`pool_try_get`].
pub open spec fn after_request<T: ZeroValue>(s: PoolState<T>, p: &VideoFramePlane) -> PoolState<T> {
    pool_try_get(s, p.width as int, p.height as int).0
}

/// Whether a pool grants one plane's request.
pub open spec fn grants<T: ZeroValue>(s: PoolState<T>, p: &VideoFramePlane) -> bool {
    pool_try_get(s, p.width as int, p.height as int).1 is Some
}

/// A pool's state after a granted buffer, holding the plane's values, comes back.
pub open spec fn after_request_and_return<T: PlaneElement>(old_s: PoolState<T>, new_s: PoolState<T>, p: &VideoFramePlane) -> bool {
    let s1 = after_request(old_s, p);
    &&& new_s.count == s1.count && new_s.max == s1.max
    &&& new_s.free.len() == s1.free.len() + 1
    &&& new_s.free.drop_last() == s1.free
    &&& new_s.free.last().len() == p.width * p.height
    &&& T::decodes(new_s.free.last(), plane_bytes(p, T::spec_size()))
}

impl FrameBitmapPool {
    /// Creates a pool whose pools for the given format start with `capacity`
    /// zeroed buffers of the initial resolution; the other pools start empty.
    pub fn new_with_initial_capacity(capacity: usize, initial_resolution: (usize, usize), max: usize, format: crate::capture_stream::CapturePixelFormat) -> (pool: Self)
        requires
            initial_resolution.0 * initial_resolution.1 <= usize::MAX,
        ensures
            pool.bgra_u8x4.state().free.len() == (if format == crate::capture_stream::CapturePixelFormat::Bgra8888 { capacity } else { 0 }),
            pool.bgra_u8x4.state().count == (if format == crate::capture_stream::CapturePixelFormat::Bgra8888 { capacity } else { 0 }),
            pool.argb_packed_2101010.state().free.len() == (if format == crate::capture_stream::CapturePixelFormat::Argb2101010 { capacity } else { 0 }),
            pool.argb_packed_2101010.state().count == (if format == crate::capture_stream::CapturePixelFormat::Argb2101010 { capacity } else { 0 }),
            pool.luma.state().free.len() == (if format == crate::capture_stream::CapturePixelFormat::F420 || format == crate::capture_stream::CapturePixelFormat::V420 { capacity } else { 0 }),
            pool.luma.state().count == (if format == crate::capture_stream::CapturePixelFormat::F420 || format == crate::capture_stream::CapturePixelFormat::V420 { capacity } else { 0 }),
            pool.chroma.state().free.len() == (if format == crate::capture_stream::CapturePixelFormat::F420 || format == crate::capture_stream::CapturePixelFormat::V420 { capacity } else { 0 }),
            pool.chroma.state().count == (if format == crate::capture_stream::CapturePixelFormat::F420 || format == crate::capture_stream::CapturePixelFormat::V420 { capacity } else { 0 }),
            forall|i: int| 0 <= i < pool.bgra_u8x4.state().free.len() ==> #[trigger] pool.bgra_u8x4.state().free[i] == zeroes::<[u8; 4]>((initial_resolution.0 * initial_resolution.1) as nat),
            forall|i: int| 0 <= i < pool.argb_packed_2101010.state().free.len() ==> #[trigger] pool.argb_packed_2101010.state().free[i] == zeroes::<u32>((initial_resolution.0 * initial_resolution.1) as nat),
            forall|i: int| 0 <= i < pool.luma.state().free.len() ==> #[trigger] pool.luma.state().free[i] == zeroes::<u8>((initial_resolution.0 * initial_resolution.1) as nat),
            forall|i: int| 0 <= i < pool.chroma.state().free.len() ==> #[trigger] pool.chroma.state().free[i] == zeroes::<[u8; 2]>((initial_resolution.0 * initial_resolution.1) as nat),
            pool.bgra_u8x4.state().max == max,
            pool.argb_packed_2101010.state().max == max,
            pool.luma.state().max == max,
            pool.chroma.state().max == max,
    {
        let ycbcr = format == crate::capture_stream::CapturePixelFormat::F420 || format == crate::capture_stream::CapturePixelFormat::V420;
        FrameBitmapPool {
            bgra_u8x4: BitmapPool::new(
                if format == crate::capture_stream::CapturePixelFormat::Bgra8888 { capacity } else { 0 },
                max,
                initial_resolution,
            ),
            argb_packed_2101010: BitmapPool::new(
                if format == crate::capture_stream::CapturePixelFormat::Argb2101010 { capacity } else { 0 },
                max,
                initial_resolution,
            ),
            luma: BitmapPool::new(if ycbcr { capacity } else { 0 }, max, initial_resolution),
            chroma: BitmapPool::new(if ycbcr { capacity } else { 0 }, max, initial_resolution),
        }
    }

    /// Creates a pool with no buffers, allowing fresh buffers up to `max`.
    pub fn new(max: usize) -> (pool: Self)
        ensures
            pool.bgra_u8x4.state() == (PoolState::<[u8; 4]> { free: Seq::empty(), count: 0, max: max as int }),
            pool.argb_packed_2101010.state() == (PoolState::<u32> { free: Seq::empty(), count: 0, max: max as int }),
            pool.luma.state() == (PoolState::<u8> { free: Seq::empty(), count: 0, max: max as int }),
            pool.chroma.state() == (PoolState::<[u8; 2]> { free: Seq::empty(), count: 0, max: max as int }),
    {
        let empty: (usize, usize) = (0, 0);
        assert(empty.0 * empty.1 == 0) by (nonlinear_arith) requires empty.0 == 0;
        let pool = FrameBitmapPool {
            bgra_u8x4: BitmapPool::new(0, max, empty),
            argb_packed_2101010: BitmapPool::new(0, max, empty),
            luma: BitmapPool::new(0, max, empty),
            chroma: BitmapPool::new(0, max, empty),
        };
        assert(pool.bgra_u8x4.state().free =~= Seq::empty());
        assert(pool.argb_packed_2101010.state().free =~= Seq::empty());
        assert(pool.luma.state().free =~= Seq::empty());
        assert(pool.chroma.state().free =~= Seq::empty());
        pool
    }

    /// Drops the free buffers of every pool.
    pub fn free_pooled(&mut self)
        requires
            old(self).bgra_u8x4.state().free.len() <= old(self).bgra_u8x4.state().count,
            old(self).argb_packed_2101010.state().free.len() <= old(self).argb_packed_2101010.state().count,
            old(self).luma.state().free.len() <= old(self).luma.state().count,
            old(self).chroma.state().free.len() <= old(self).chroma.state().count,
        ensures
            final(self).bgra_u8x4.state() == pool_free_pooled(old(self).bgra_u8x4.state()),
            final(self).argb_packed_2101010.state() == pool_free_pooled(old(self).argb_packed_2101010.state()),
            final(self).luma.state() == pool_free_pooled(old(self).luma.state()),
            final(self).chroma.state() == pool_free_pooled(old(self).chroma.state()),
    {
        self.bgra_u8x4.free_pooled();
        self.argb_packed_2101010.free_pooled();
        self.luma.free_pooled();
        self.chroma.free_pooled();
    }
}

/// Each plane's request can be served by its pool: see [`pool_copy_ok`].
pub open spec fn frame_pool_copy_ok(pool: &FrameBitmapPool, d: &VideoFrameData) -> bool {
    match d {
        VideoFrameData::Bgra8888(p) => pool_copy_ok(pool.bgra_u8x4.state(), p.width as int, p.height as int),
        VideoFrameData::ArgbPacked2101010(p) => pool_copy_ok(pool.argb_packed_2101010.state(), p.width as int, p.height as int),
        VideoFrameData::F420 { luma, chroma } | VideoFrameData::V420 { luma, chroma } => {
            &&& pool_copy_ok(pool.luma.state(), luma.width as int, luma.height as int)
            &&& pool_copy_ok(pool.chroma.state(), chroma.width as int, chroma.height as int)
        },
    }
}

/// Creates a bitmap image from the mapped planes of a frame, taking its
/// buffers from the pool. When a pool grants no buffer for some plane, no
/// bitmap is made, and a buffer granted for the other plane goes back to its
/// pool.
pub fn try_get_pooled_bitmap(data: &VideoFrameData, bitmap_pool: &mut FrameBitmapPool) -> (r: Option<PooledFrameBitmap>)
    requires
        frame_data_fits(data),
        frame_pool_copy_ok(old(bitmap_pool), data),
    ensures
        r matches Some(b) ==> is_pooled_bitmap_of(&b, data),
        match data {
            VideoFrameData::Bgra8888(p) => {
                &&& final(bitmap_pool).bgra_u8x4.state() == after_request(old(bitmap_pool).bgra_u8x4.state(), p)
                &&& r is Some == grants(old(bitmap_pool).bgra_u8x4.state(), p)
                &&& final(bitmap_pool).argb_packed_2101010.state() == old(bitmap_pool).argb_packed_2101010.state()
                &&& final(bitmap_pool).luma.state() == old(bitmap_pool).luma.state()
                &&& final(bitmap_pool).chroma.state() == old(bitmap_pool).chroma.state()
            },
            VideoFrameData::ArgbPacked2101010(p) => {
                &&& final(bitmap_pool).argb_packed_2101010.state() == after_request(old(bitmap_pool).argb_packed_2101010.state(), p)
                &&& r is Some == grants(old(bitmap_pool).argb_packed_2101010.state(), p)
                &&& final(bitmap_pool).bgra_u8x4.state() == old(bitmap_pool).bgra_u8x4.state()
                &&& final(bitmap_pool).luma.state() == old(bitmap_pool).luma.state()
                &&& final(bitmap_pool).chroma.state() == old(bitmap_pool).chroma.state()
            },
            VideoFrameData::F420 { luma, chroma } | VideoFrameData::V420 { luma, chroma } => {
                let luma_granted = grants(old(bitmap_pool).luma.state(), luma);
                let chroma_granted = grants(old(bitmap_pool).chroma.state(), chroma);
                &&& r is Some == (luma_granted && chroma_granted)
                &&& (luma_granted && !chroma_granted) ==> after_request_and_return(old(bitmap_pool).luma.state(), final(bitmap_pool).luma.state(), luma)
                &&& !(luma_granted && !chroma_granted) ==> final(bitmap_pool).luma.state() == after_request(old(bitmap_pool).luma.state(), luma)
                &&& (chroma_granted && !luma_granted) ==> after_request_and_return(old(bitmap_pool).chroma.state(), final(bitmap_pool).chroma.state(), chroma)
                &&& !(chroma_granted && !luma_granted) ==> final(bitmap_pool).chroma.state() == after_request(old(bitmap_pool).chroma.state(), chroma)
                &&& final(bitmap_pool).bgra_u8x4.state() == old(bitmap_pool).bgra_u8x4.state()
                &&& final(bitmap_pool).argb_packed_2101010.state() == old(bitmap_pool).argb_packed_2101010.state()
            },
        },
{
    match data {
        VideoFrameData::Bgra8888(p) => {
            match try_copy_pooled_plane(p, &mut bitmap_pool.bgra_u8x4) {
                Some(b) => Some(FrameBitmap::BgraUnorm8x4(FrameBitmapBgraUnorm8x4 { data: b, width: p.width, height: p.height })),
                None => None,
            }
        },
        VideoFrameData::ArgbPacked2101010(p) => {
            match try_copy_pooled_plane(p, &mut bitmap_pool.argb_packed_2101010) {
                Some(b) => Some(FrameBitmap::ArgbUnormPacked2101010(FrameBitmapArgbUnormPacked2101010 { data: b, width: p.width, height: p.height })),
                None => None,
            }
        },
        VideoFrameData::F420 { luma, chroma } => try_pooled_ycbcr(luma, chroma, VideoRange::Full, bitmap_pool),
        VideoFrameData::V420 { luma, chroma } => try_pooled_ycbcr(luma, chroma, VideoRange::Video, bitmap_pool),
    }
}

fn try_pooled_ycbcr(luma: &VideoFramePlane, chroma: &VideoFramePlane, range: VideoRange, bitmap_pool: &mut FrameBitmapPool) -> (r: Option<PooledFrameBitmap>)
    requires
        plane_fits(luma, 1),
        plane_fits(chroma, 2),
        pool_copy_ok(old(bitmap_pool).luma.state(), luma.width as int, luma.height as int),
        pool_copy_ok(old(bitmap_pool).chroma.state(), chroma.width as int, chroma.height as int),
    ensures
        r matches Some(b) ==> (b matches FrameBitmap::YCbCr(y) && pooled_ycbcr_is_copy_of(&y, luma, chroma) && y.range == range),
        ({
            let luma_granted = grants(old(bitmap_pool).luma.state(), luma);
            let chroma_granted = grants(old(bitmap_pool).chroma.state(), chroma);
            &&& r is Some == (luma_granted && chroma_granted)
            &&& (luma_granted && !chroma_granted) ==> after_request_and_return(old(bitmap_pool).luma.state(), final(bitmap_pool).luma.state(), luma)
            &&& !(luma_granted && !chroma_granted) ==> final(bitmap_pool).luma.state() == after_request(old(bitmap_pool).luma.state(), luma)
            &&& (chroma_granted && !luma_granted) ==> after_request_and_return(old(bitmap_pool).chroma.state(), final(bitmap_pool).chroma.state(), chroma)
            &&& !(chroma_granted && !luma_granted) ==> final(bitmap_pool).chroma.state() == after_request(old(bitmap_pool).chroma.state(), chroma)
        }),
        final(bitmap_pool).bgra_u8x4.state() == old(bitmap_pool).bgra_u8x4.state(),
        final(bitmap_pool).argb_packed_2101010.state() == old(bitmap_pool).argb_packed_2101010.state(),
{
    let luma_data = try_copy_pooled_plane(luma, &mut bitmap_pool.luma);
    let chroma_data = try_copy_pooled_plane(chroma, &mut bitmap_pool.chroma);
    match (luma_data, chroma_data) {
        (Some(luma_data), Some(chroma_data)) => Some(FrameBitmap::YCbCr(FrameBitmapYCbCr {
            luma_data,
            luma_width: luma.width,
            luma_height: luma.height,
            chroma_data,
            chroma_width: chroma.width,
            chroma_height: chroma.height,
            range,
        })),
        (Some(luma_data), None) => {
            let ghost s1 = bitmap_pool.luma.state();
            bitmap_pool.luma.release(luma_data);
            assert(bitmap_pool.luma.state().free.drop_last() =~= s1.free);
            None
        },
        (None, Some(chroma_data)) => {
            let ghost s1 = bitmap_pool.chroma.state();
            bitmap_pool.chroma.release(chroma_data);
            assert(bitmap_pool.chroma.state().free.drop_last() =~= s1.free);
            None
        },
        (None, None) => None,
    }
}

/// Pooled buffers taken for the planes of one frame
pub enum FramePlaneBuffers {
    Bgra8888(PooledBitmap<[u8; 4]>),
    ArgbPacked2101010(PooledBitmap<u32>),
    YCbCr { luma: PooledBitmap<u8>, chroma: PooledBitmap<[u8; 2]> },
}

/// A pooled buffer has a plane's resolution and one value for each pixel.
pub open spec fn buffer_fits<T>(b: &PooledBitmap<T>, p: &VideoFramePlane) -> bool {
    &&& b.model().width == p.width && b.model().height == p.height
    &&& b.model().data.len() == p.width * p.height
}

/// The buffers are of the frame's pixel format and each fits its plane.
pub open spec fn buffers_fit(d: &VideoFrameData, buffers: &FramePlaneBuffers) -> bool {
    match (d, buffers) {
        (VideoFrameData::Bgra8888(p), FramePlaneBuffers::Bgra8888(b)) => buffer_fits(b, p),
        (VideoFrameData::ArgbPacked2101010(p), FramePlaneBuffers::ArgbPacked2101010(b)) => buffer_fits(b, p),
        (VideoFrameData::F420 { luma, chroma }, FramePlaneBuffers::YCbCr { luma: lb, chroma: cb })
        | (VideoFrameData::V420 { luma, chroma }, FramePlaneBuffers::YCbCr { luma: lb, chroma: cb }) => {
            buffer_fits(lb, luma) && buffer_fits(cb, chroma)
        },
        _ => false,
    }
}

/// Whether a pooled buffer fits a plane: see [`buffer_fits`]
fn buffer_fits_check<T>(b: &PooledBitmap<T>, p: &VideoFramePlane) -> (r: bool)
    ensures
        r == buffer_fits(b, p),
{
    b.width == p.width && b.height == p.height && p.width.checked_mul(p.height) == Some(b.len())
}

/// Whether the buffers fit the frame: see [`buffers_fit`]
pub fn buffers_fit_check(d: &VideoFrameData, buffers: &FramePlaneBuffers) -> (r: bool)
    ensures
        r == buffers_fit(d, buffers),
{
    match (d, buffers) {
        (VideoFrameData::Bgra8888(p), FramePlaneBuffers::Bgra8888(b)) => buffer_fits_check(b, p),
        (VideoFrameData::ArgbPacked2101010(p), FramePlaneBuffers::ArgbPacked2101010(b)) => buffer_fits_check(b, p),
        (VideoFrameData::F420 { luma, chroma }, FramePlaneBuffers::YCbCr { luma: lb, chroma: cb })
        | (VideoFrameData::V420 { luma, chroma }, FramePlaneBuffers::YCbCr { luma: lb, chroma: cb }) => {
            buffer_fits_check(lb, luma) && buffer_fits_check(cb, chroma)
        },
        _ => false,
    }
}

/// Copies a frame into the pooled buffers taken for its planes: the pooled
/// bitmap of the frame, as [`try_get_pooled_bitmap`] gives when its pool
/// grants every buffer.
pub fn pooled_bitmap_from_buffers(data: &VideoFrameData, buffers: FramePlaneBuffers) -> (r: PooledFrameBitmap)
    requires
        frame_data_fits(data),
        buffers_fit(data, &buffers),
    ensures
        is_pooled_bitmap_of(&r, data),
{
    match (data, buffers) {
        (VideoFrameData::Bgra8888(p), FramePlaneBuffers::Bgra8888(b)) => FrameBitmap::BgraUnorm8x4(FrameBitmapBgraUnorm8x4 {
            data: copy_into_pooled(p, b),
            width: p.width,
            height: p.height,
        }),
        (VideoFrameData::ArgbPacked2101010(p), FramePlaneBuffers::ArgbPacked2101010(b)) => FrameBitmap::ArgbUnormPacked2101010(FrameBitmapArgbUnormPacked2101010 {
            data: copy_into_pooled(p, b),
            width: p.width,
            height: p.height,
        }),
        (VideoFrameData::F420 { luma, chroma }, FramePlaneBuffers::YCbCr { luma: lb, chroma: cb }) => FrameBitmap::YCbCr(FrameBitmapYCbCr {
            luma_data: copy_into_pooled(luma, lb),
            luma_width: luma.width,
            luma_height: luma.height,
            chroma_data: copy_into_pooled(chroma, cb),
            chroma_width: chroma.width,
            chroma_height: chroma.height,
            range: VideoRange::Full,
        }),
        (VideoFrameData::V420 { luma, chroma }, FramePlaneBuffers::YCbCr { luma: lb, chroma: cb }) => FrameBitmap::YCbCr(FrameBitmapYCbCr {
            luma_data: copy_into_pooled(luma, lb),
            luma_width: luma.width,
            luma_height: luma.height,
            chroma_data: copy_into_pooled(chroma, cb),
            chroma_width: chroma.width,
            chroma_height: chroma.height,
            range: VideoRange::Video,
        }),
        _ => {
            proof { assert(false); }
            FrameBitmap::BgraUnorm8x4(FrameBitmapBgraUnorm8x4 { data: PooledBitmap { data: Vec::new(), width: 0, height: 0 }, width: 0, height: 0 })
        },
    }
}

} // verus!

verus! {

/// The bitmaps hold the same planes: the same kind, sizes and range, and
/// the same values in each plane.
pub open spec fn same_bitmap(b: &BoxedSliceFrameBitmap, p: &PooledFrameBitmap) -> bool {
    match (b, p) {
        (FrameBitmap::BgraUnorm8x4(x), FrameBitmap::BgraUnorm8x4(y)) =>
            x.width == y.width && x.height == y.height && x.data@ == y.data.model().data,
        (FrameBitmap::ArgbUnormPacked2101010(x), FrameBitmap::ArgbUnormPacked2101010(y)) =>
            x.width == y.width && x.height == y.height && x.data@ == y.data.model().data,
        (FrameBitmap::YCbCr(x), FrameBitmap::YCbCr(y)) => {
            &&& x.luma_width == y.luma_width && x.luma_height == y.luma_height
            &&& x.chroma_width == y.chroma_width && x.chroma_height == y.chroma_height
            &&& x.range == y.range
            &&& x.luma_data@ == y.luma_data.model().data
            &&& x.chroma_data@ == y.chroma_data.model().data
        },
        _ => false,
    }
}

proof fn lemma_quads_unique(a: Seq<[u8; 4]>, b: Seq<[u8; 4]>, bytes: Seq<u8>)
    requires
        is_quads_of(a, bytes),
        is_quads_of(b, bytes),
    ensures
        a == b,
{
    assert forall|i: int| 0 <= i < a.len() implies a[i] == b[i] by {
        assert forall|j: int| 0 <= j < 4 implies a[i][j] == b[i][j] by {
            assert(a[i][j] == bytes[4 * i + j]);
            assert(b[i][j] == bytes[4 * i + j]);
        }
        assert(a[i] =~= b[i]);
    }
    assert(a =~= b);
}

proof fn lemma_pairs_unique(a: Seq<[u8; 2]>, b: Seq<[u8; 2]>, bytes: Seq<u8>)
    requires
        is_pairs_of(a, bytes),
        is_pairs_of(b, bytes),
    ensures
        a == b,
{
    assert forall|i: int| 0 <= i < a.len() implies a[i] == b[i] by {
        assert forall|j: int| 0 <= j < 2 implies a[i][j] == b[i][j] by {
            assert(a[i][j] == bytes[2 * i + j]);
            assert(b[i][j] == bytes[2 * i + j]);
        }
        assert(a[i] =~= b[i]);
    }
    assert(a =~= b);
}

proof fn lemma_le_words_unique(a: Seq<u32>, b: Seq<u32>, bytes: Seq<u8>)
    requires
        is_le_words_of(a, bytes),
        is_le_words_of(b, bytes),
    ensures
        a == b,
{
    assert forall|i: int| 0 <= i < a.len() implies a[i] == b[i] by {
        assert(a[i] == le_word(bytes[4 * i], bytes[4 * i + 1], bytes[4 * i + 2], bytes[4 * i + 3]));
        assert(b[i] == le_word(bytes[4 * i], bytes[4 * i + 1], bytes[4 * i + 2], bytes[4 * i + 3]));
    }
    assert(a =~= b);
}

/// The pooled bitmap of a frame holds what its bitmap holds: for the same
/// frame data, a bitmap and a pooled bitmap have the same kind, sizes and
/// range, and equal values in every plane.
pub proof fn law_pooled_bitmap_equals_bitmap(b: &BoxedSliceFrameBitmap, p: &PooledFrameBitmap, d: &VideoFrameData)
    requires
        is_bitmap_of(b, d),
        is_pooled_bitmap_of(p, d),
    ensures
        same_bitmap(b, p),
{
    match (d, b, p) {
        (VideoFrameData::Bgra8888(plane), FrameBitmap::BgraUnorm8x4(x), FrameBitmap::BgraUnorm8x4(y)) => {
            lemma_quads_unique(x.data@, y.data.model().data, plane_bytes(plane, 4));
        },
        (VideoFrameData::ArgbPacked2101010(plane), FrameBitmap::ArgbUnormPacked2101010(x), FrameBitmap::ArgbUnormPacked2101010(y)) => {
            lemma_le_words_unique(x.data@, y.data.model().data, plane_bytes(plane, 4));
        },
        (VideoFrameData::F420 { luma, chroma }, FrameBitmap::YCbCr(x), FrameBitmap::YCbCr(y))
        | (VideoFrameData::V420 { luma, chroma }, FrameBitmap::YCbCr(x), FrameBitmap::YCbCr(y)) => {
            lemma_pairs_unique(x.chroma_data@, y.chroma_data.model().data, plane_bytes(chroma, 2));
        },
        _ => {},
    }
}

/// A buffer given back to a pool is the one the next request takes, when it
/// holds at most the requested number of values; the pool is then as it was
/// before the buffer came back.
pub proof fn law_returned_buffer_is_reused<T: ZeroValue>(s: PoolState<T>, data: Seq<T>, width: int, height: int)
    requires
        data.len() <= width * height,
    ensures
        pool_try_get(pool_release(s, data), width, height) == (s, Some(BitmapModel { data, width, height })),
{
    assert(pool_release(s, data).free.drop_last() =~= s.free);
}

/// While the pool's count is below its maximum, every request is granted.
pub proof fn law_request_below_max_is_granted<T: ZeroValue>(s: PoolState<T>, width: int, height: int)
    requires
        s.count < s.max,
    ensures
        pool_try_get(s, width, height).1 is Some,
{
}

/// A granted bitmap has the requested resolution and holds at most
/// `width * height` values; a fresh one holds exactly that many zeroes.
pub proof fn law_granted_bitmap_has_requested_resolution<T: ZeroValue>(s: PoolState<T>, width: int, height: int)
    requires
        0 <= width,
        0 <= height,
    ensures
        pool_try_get(s, width, height).1 matches Some(b) ==> {
            &&& b.width == width && b.height == height
            &&& b.data.len() <= width * height
            &&& !pool_reuses(s, width, height) ==> b.data == zeroes::<T>((width * height) as nat)
        },
{
    assert(0 <= width * height) by (nonlinear_arith) requires 0 <= width, 0 <= height;
}

/// The copy of a plane holds, at row `y`, the pixel bytes of row `y` of the plane.
pub proof fn law_copied_rows_are_plane_rows(data: Seq<u8>, bytes_per_row: int, row_bytes: int, height: nat, y: int)
    requires
        0 <= row_bytes <= bytes_per_row,
        bytes_per_row * height <= data.len(),
        0 <= y < height,
    ensures
        packed_rows(data, bytes_per_row, row_bytes, height).subrange(row_bytes * y, row_bytes * y + row_bytes)
            == plane_row(data, bytes_per_row, row_bytes, y),
    decreases height,
{
    lemma_row_in_bounds(bytes_per_row, row_bytes, height as int, height - 1);
    assert(bytes_per_row * (height - 1) <= data.len()) by (nonlinear_arith)
        requires 0 <= bytes_per_row, bytes_per_row * height <= data.len(), height >= 1;
    lemma_packed_rows_len(data, bytes_per_row, row_bytes, (height - 1) as nat);
    let prefix = packed_rows(data, bytes_per_row, row_bytes, (height - 1) as nat);
    let last = plane_row(data, bytes_per_row, row_bytes, height - 1);
    if y == height - 1 {
        assert(packed_rows(data, bytes_per_row, row_bytes, height).subrange(row_bytes * y, row_bytes * y + row_bytes) =~= last);
    } else {
        lemma_row_in_bounds(bytes_per_row, row_bytes, (height - 1) as int, y);
        law_copied_rows_are_plane_rows(data, bytes_per_row, row_bytes, (height - 1) as nat, y);
        assert(packed_rows(data, bytes_per_row, row_bytes, height).subrange(row_bytes * y, row_bytes * y + row_bytes)
            =~= prefix.subrange(row_bytes * y, row_bytes * y + row_bytes));
    }
}

} // verus!

verus! {

/// The product of two sizes, without overflow
fn wide_mul(a: usize, b: usize) -> (r: u128)
    ensures
        r == a * b,
{
    let wa = a as u128;
    let wb = b as u128;
    assert(wa * wb <= 0xffff_ffff_ffff_ffffu128 * 0xffff_ffff_ffff_ffffu128) by (nonlinear_arith)
        requires wa <= 0xffff_ffff_ffff_ffffu128, wb <= 0xffff_ffff_ffff_ffffu128;
    wa * wb
}

/// Whether a plane's rows of `element_size * width` bytes all lie inside its
/// data: see [`plane_fits`].
pub fn plane_fits_check(plane: &VideoFramePlane, element_size: usize) -> (r: bool)
    ensures
        r == plane_fits(plane, element_size as nat),
{
    let row_bytes = wide_mul(element_size, plane.width);
    let total = wide_mul(plane.bytes_per_row, plane.height);
    row_bytes <= plane.bytes_per_row as u128 && total <= plane.data.len() as u128
}

impl VideoFrameData {
    /// Whether every plane lies inside its buffer: see [`frame_data_fits`]
    pub fn fits(&self) -> (r: bool)
        ensures
            r == frame_data_fits(self),
    {
        match self {
            VideoFrameData::Bgra8888(p) => plane_fits_check(p, 4),
            VideoFrameData::ArgbPacked2101010(p) => plane_fits_check(p, 4),
            VideoFrameData::F420 { luma, chroma } => plane_fits_check(luma, 1) && plane_fits_check(chroma, 2),
            VideoFrameData::V420 { luma, chroma } => plane_fits_check(luma, 1) && plane_fits_check(chroma, 2),
        }
    }
}

impl<T: ZeroValue> BitmapPool<T> {
    /// Whether a request can be served without underflow or overflow: see
    /// [`pool_try_get_ok`]
    pub fn can_get_bitmap(&self, resolution: (usize, usize)) -> (r: bool)
        ensures
            r == pool_try_get_ok(self.state(), resolution.0 as int, resolution.1 as int),
    {
        let wide = wide_mul(resolution.0, resolution.1);
        if wide > usize::MAX as u128 {
            return false;
        }
        let n = (wide as usize);
        let len = self.free_bitmaps.len();
        if len > 0 {
            let reuses = self.free_bitmaps[len - 1].len() <= n;
            proof {
                assert(self.state().free.last() == self.free_bitmaps@[len - 1]@);
            }
            reuses || self.count >= 1
        } else {
            true
        }
    }

    /// Whether a request can be copied into without a buffer of the wrong
    /// size: see [`pool_copy_ok`]
    pub fn can_copy_into(&self, resolution: (usize, usize)) -> (r: bool)
        ensures
            r == pool_copy_ok(self.state(), resolution.0 as int, resolution.1 as int),
    {
        if !self.can_get_bitmap(resolution) {
            return false;
        }
        let n = resolution.0 * resolution.1;
        let len = self.free_bitmaps.len();
        if len > 0 {
            proof {
                assert(self.state().free.last() == self.free_bitmaps@[len - 1]@);
            }
            let top = self.free_bitmaps[len - 1].len();
            top > n || top == n
        } else {
            true
        }
    }

    /// Whether the free buffers can be dropped without the count falling
    /// below zero
    pub fn can_free_pooled(&self) -> (r: bool)
        ensures
            r == (self.state().free.len() <= self.state().count),
    {
        self.free_bitmaps.len() <= self.count
    }
}

impl FrameBitmapPool {
    /// Whether each plane's pool can serve the plane: see [`frame_pool_copy_ok`]
    pub fn can_copy(&self, data: &VideoFrameData) -> (r: bool)
        ensures
            r == frame_pool_copy_ok(self, data),
    {
        match data {
            VideoFrameData::Bgra8888(p) => self.bgra_u8x4.can_copy_into((p.width, p.height)),
            VideoFrameData::ArgbPacked2101010(p) => self.argb_packed_2101010.can_copy_into((p.width, p.height)),
            VideoFrameData::F420 { luma, chroma } | VideoFrameData::V420 { luma, chroma } =>
                self.luma.can_copy_into((luma.width, luma.height)) && self.chroma.can_copy_into((chroma.width, chroma.height)),
        }
    }

    /// Whether every pool's free buffers can be dropped
    pub fn can_free_pooled(&self) -> (r: bool)
        ensures
            r == {
                &&& self.bgra_u8x4.state().free.len() <= self.bgra_u8x4.state().count
                &&& self.argb_packed_2101010.state().free.len() <= self.argb_packed_2101010.state().count
                &&& self.luma.state().free.len() <= self.luma.state().count
                &&& self.chroma.state().free.len() <= self.chroma.state().count
            },
    {
        self.bgra_u8x4.can_free_pooled() && self.argb_packed_2101010.can_free_pooled()
            && self.luma.can_free_pooled() && self.chroma.can_free_pooled()
    }
}

} // verus!
