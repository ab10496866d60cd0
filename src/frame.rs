use vstd::prelude::*;
use crate::geometry::Region;

verus! {

/// A captured or cropped image: `height` rows, each holding `width` pixels
/// as four bytes red, green, blue, alpha.
pub struct Frame {
    width: u32,
    height: u32,
    rows: Vec<Vec<u8>>,
}

/// The rows hold exactly `height` rows of exactly `width` RGBA pixels.
pub open spec fn rows_shaped(rows: Seq<Seq<u8>>, width: nat, height: nat) -> bool {
    rows.len() == height && forall|i: int| 0 <= i < rows.len() ==> (#[trigger] rows[i]).len() == 4 * width
}

/// The rows of `src` that a crop keeps, each cut to the region's columns.
pub open spec fn cropped_rows(src: Seq<Seq<u8>>, g: Region) -> Seq<Seq<u8>> {
    Seq::new(g.height as nat, |i: int| src[g.y + i].subrange(4 * g.x, 4 * (g.x + g.width)))
}

/// The rows one after the other.
pub open spec fn joined(rows: Seq<Seq<u8>>) -> Seq<u8>
    decreases rows.len(),
{
    if rows.len() == 0 {
        Seq::empty()
    } else {
        joined(rows.drop_last()) + rows.last()
    }
}

/// Consecutive rows of `row_len` bytes cut from `bytes`.
pub open spec fn split_rows(bytes: Seq<u8>, row_len: nat, count: nat) -> Seq<Seq<u8>> {
    Seq::new(count, |i: int| bytes.subrange(i * row_len, (i + 1) * row_len))
}

/// RGBA bytes with the alpha byte of every pixel left out.
pub open spec fn without_alpha(rgba: Seq<u8>) -> Seq<u8>
    decreases rgba.len(),
{
    if rgba.len() < 4 {
        Seq::empty()
    } else {
        without_alpha(rgba.subrange(0, rgba.len() - 4)) + rgba.subrange(rgba.len() - 4, rgba.len() - 1)
    }
}

/// Joining rows of equal length `row_len` and cutting the result again
/// gives the rows back.
pub proof fn lemma_split_joined(rows: Seq<Seq<u8>>, row_len: nat)
    requires
        forall|i: int| 0 <= i < rows.len() ==> (#[trigger] rows[i]).len() == row_len,
    ensures
        joined(rows).len() == rows.len() * row_len,
        split_rows(joined(rows), row_len, rows.len()) == rows,
    decreases rows.len(),
{
    if rows.len() > 0 {
        let front = rows.drop_last();
        lemma_split_joined(front, row_len);
        let n = front.len();
        assert((n + 1) * row_len == n * row_len + row_len) by (nonlinear_arith);
        let j = joined(rows);
        assert(j == joined(front) + rows.last());
        assert forall|i: int| 0 <= i < rows.len() implies #[trigger] split_rows(j, row_len, rows.len())[i]
            == rows[i] by {
            if i < n {
                assert((i + 1) * row_len <= n * row_len) by (nonlinear_arith)
                    requires
                        i + 1 <= n,
                ;
                assert(i * row_len + row_len == (i + 1) * row_len) by (nonlinear_arith);
                assert(0 <= i * row_len) by (nonlinear_arith)
                    requires
                        0 <= i,
                ;
                assert(split_rows(joined(front), row_len, n)[i] == front[i]);
                assert(j.subrange(i * row_len, (i + 1) * row_len) =~= joined(front).subrange(
                    i * row_len,
                    (i + 1) * row_len,
                ));
            } else {
                assert(i == n);
                assert(j.subrange(i * row_len, (i + 1) * row_len) =~= rows.last());
            }
        }
        assert(split_rows(j, row_len, rows.len()) =~= rows);
    } else {
        assert(split_rows(joined(rows), row_len, 0) =~= rows);
    }
}

/// Cutting `count` rows of `row_len` bytes from bytes of exactly that many
/// and joining them again gives the bytes back.
pub proof fn lemma_joined_split(bytes: Seq<u8>, row_len: nat, count: nat)
    requires
        bytes.len() == count * row_len,
    ensures
        joined(split_rows(bytes, row_len, count)) == bytes,
    decreases count,
{
    if count > 0 {
        let n = (count - 1) as nat;
        assert(count * row_len == n * row_len + row_len) by (nonlinear_arith)
            requires
                count == n + 1,
        ;
        let front = bytes.subrange(0, (n * row_len) as int);
        lemma_joined_split(front, row_len, n);
        let rows = split_rows(bytes, row_len, count);
        assert forall|i: int| 0 <= i < n implies #[trigger] rows.drop_last()[i] == split_rows(
            front,
            row_len,
            n,
        )[i] by {
            assert((i + 1) * row_len <= n * row_len) by (nonlinear_arith)
                requires
                    i + 1 <= n,
            ;
            assert(0 <= i * row_len) by (nonlinear_arith)
                requires
                    0 <= i,
            ;
            assert(i * row_len + row_len == (i + 1) * row_len) by (nonlinear_arith);
            assert(bytes.subrange(i * row_len, (i + 1) * row_len) =~= front.subrange(
                i * row_len,
                (i + 1) * row_len,
            ));
        }
        assert(rows.drop_last() =~= split_rows(front, row_len, n));
        assert(joined(rows) =~= bytes);
    } else {
        assert(count * row_len == 0) by (nonlinear_arith)
            requires
                count == 0,
        ;
        assert(bytes =~= Seq::<u8>::empty());
    }
}

impl Frame {
    pub closed spec fn spec_width(&self) -> nat {
        self.width as nat
    }

    pub closed spec fn spec_height(&self) -> nat {
        self.height as nat
    }

    /// The rows of RGBA bytes, top to bottom.
    pub closed spec fn pixels(&self) -> Seq<Seq<u8>> {
        self.rows@.map_values(|r: Vec<u8>| r@)
    }

    /// Width and height are `u32` values.
    pub proof fn lemma_size_fits_u32(&self)
        ensures
            self.spec_width() <= u32::MAX,
            self.spec_height() <= u32::MAX,
    {
    }

    pub closed spec fn wf(&self) -> bool {
        rows_shaped(self.pixels(), self.width as nat, self.height as nat)
    }

    /// A frame of the given size from RGBA bytes, row after row; `None`
    /// unless there are exactly four bytes for every pixel.
    pub fn from_rgba(width: u32, height: u32, bytes: &Vec<u8>) -> (r: Option<Frame>)
        ensures
            r is Some <==> bytes@.len() == 4 * width * height,
            r matches Some(f) ==> f.wf() && f.spec_width() == width && f.spec_height() == height
                && f.pixels() == split_rows(bytes@, 4 * width as nat, height as nat),
    {
        let row_len: u64 = 4 * width as u64;
        let total: usize = bytes.len();
        let ghost rl = row_len as nat;
        assert(rl * height <= 0x4_0000_0000 * 0x1_0000_0000) by (nonlinear_arith)
            requires
                rl <= 0x4_0000_0000,
                height <= 0x1_0000_0000,
        ;
        assert(4 * width * height == rl * height) by (nonlinear_arith)
            requires
                rl == 4 * width,
        ;
        if total as u128 != row_len as u128 * height as u128 {
            return None;
        }
        let mut rows: Vec<Vec<u8>> = Vec::new();
        let mut pos: usize = 0;
        let mut i: u32 = 0;
        while i < height
            invariant
                rl == 4 * width,
                rl == row_len,
                total == bytes@.len(),
                bytes@.len() == rl * height,
                i <= height,
                pos == i * rl,
                rows@.len() == i,
                forall|k: int| 0 <= k < i ==> (#[trigger] rows@[k])@ == split_rows(bytes@, rl, height as nat)[k],
            decreases height - i,
        {
            assert((i + 1) * rl <= height * rl) by (nonlinear_arith)
                requires
                    i + 1 <= height,
            ;
            assert((i + 1) * rl == i * rl + rl) by (nonlinear_arith);
            assert(rl <= rl * height) by (nonlinear_arith)
                requires
                    1 <= height,
            ;
            let end: usize = pos + row_len as usize;
            let mut row: Vec<u8> = Vec::new();
            let mut p: usize = pos;
            while p < end
                invariant
                    pos <= p <= end,
                    end <= bytes@.len(),
                    row@ == bytes@.subrange(pos as int, p as int),
                decreases end - p,
            {
                row.push(bytes[p]);
                p = p + 1;
                assert(row@ =~= bytes@.subrange(pos as int, p as int));
            }
            rows.push(row);
            pos = end;
            i = i + 1;
        }
        let f = Frame { width, height, rows };
        assert(f.pixels() =~= split_rows(bytes@, rl, height as nat));
        assert forall|k: int| 0 <= k < f.pixels().len() implies (#[trigger] f.pixels()[k]).len() == 4
            * width by {
            assert((k + 1) * rl <= rl * height) by (nonlinear_arith)
                requires
                    k + 1 <= height,
            ;
            assert(0 <= k * rl) by (nonlinear_arith)
                requires
                    0 <= k,
            ;
            assert((k + 1) * rl == k * rl + rl) by (nonlinear_arith);
            assert(f.pixels()[k] == bytes@.subrange(k * rl, (k + 1) * rl));
        }
        Some(f)
    }

    pub fn width(&self) -> (r: u32)
        ensures
            r == self.spec_width(),
    {
        self.width
    }

    pub fn height(&self) -> (r: u32)
        ensures
            r == self.spec_height(),
    {
        self.height
    }

    /// The red, green, blue and alpha bytes of the pixel in column `x` of row `y`.
    pub fn pixel(&self, x: u32, y: u32) -> (r: (u8, u8, u8, u8))
        requires
            self.wf(),
            x < self.spec_width(),
            y < self.spec_height(),
        ensures
            r == (
                self.pixels()[y as int][4 * x],
                self.pixels()[y as int][4 * x + 1],
                self.pixels()[y as int][4 * x + 2],
                self.pixels()[y as int][4 * x + 3],
            ),
    {
        let row = &self.rows[y as usize];
        assert(self.pixels()[y as int] == row@);
        // the row's length is a `usize`, so byte offsets inside it fit
        let _len: usize = row.len();
        let at: usize = 4 * x as usize;
        (row[at], row[at + 1], row[at + 2], row[at + 3])
    }

    /// All pixels as RGBA bytes, row after row.
    pub fn to_rgba(&self) -> (r: Vec<u8>)
        requires
            self.wf(),
        ensures
            r@ == joined(self.pixels()),
            r@.len() == 4 * self.spec_width() * self.spec_height(),
    {
        let mut out: Vec<u8> = Vec::new();
        let mut i: usize = 0;
        while i < self.rows.len()
            invariant
                i <= self.rows@.len(),
                out@ == joined(self.pixels().subrange(0, i as int)),
                self.pixels().len() == self.rows@.len(),
            decreases self.rows@.len() - i,
        {
            let row = &self.rows[i];
            let ghost before = out@;
            let mut j: usize = 0;
            while j < row.len()
                invariant
                    j <= row@.len(),
                    out@ == before + row@.subrange(0, j as int),
                decreases row@.len() - j,
            {
                out.push(row[j]);
                j = j + 1;
                assert(out@ =~= before + row@.subrange(0, j as int));
            }
            assert(row@.subrange(0, row@.len() as int) =~= row@);
            assert(self.pixels().subrange(0, i + 1 as int).drop_last() =~= self.pixels().subrange(0, i as int));
            assert(self.pixels()[i as int] == row@);
            i = i + 1;
        }
        assert(self.pixels().subrange(0, self.rows@.len() as int) =~= self.pixels());
        proof {
            lemma_split_joined(self.pixels(), 4 * self.spec_width());
            assert(self.pixels().len() * (4 * self.spec_width()) == 4 * self.spec_width()
                * self.spec_height()) by (nonlinear_arith)
                requires
                    self.pixels().len() == self.spec_height(),
            ;
        }
        out
    }

    /// All pixels as RGB bytes, row after row, alpha left out.
    pub fn to_rgb(&self) -> (r: Vec<u8>)
        requires
            self.wf(),
        ensures
            r@ == without_alpha(joined(self.pixels())),
            r@.len() == 3 * self.spec_width() * self.spec_height(),
    {
        let rgba = self.to_rgba();
        let ghost b = rgba@;
        let ghost n = self.spec_width() * self.spec_height();
        assert(b.len() == 4 * n) by (nonlinear_arith)
            requires
                b.len() == 4 * self.spec_width() * self.spec_height(),
                n == self.spec_width() * self.spec_height(),
        ;
        let mut out: Vec<u8> = Vec::new();
        let mut p: usize = 0;
        let ghost mut k: nat = 0;
        while p < rgba.len()
            invariant
                b == rgba@,
                b.len() == 4 * n,
                p == 4 * k,
                k <= n,
                out@.len() == 3 * k,
                out@ == without_alpha(b.subrange(0, p as int)),
            decreases b.len() - p,
        {
            out.push(rgba[p]);
            out.push(rgba[p + 1]);
            out.push(rgba[p + 2]);
            let ghost next = b.subrange(0, p + 4 as int);
            assert(next.subrange(0, next.len() - 4) =~= b.subrange(0, p as int));
            assert(next.subrange(next.len() - 4, next.len() - 1) =~= seq![b[p as int], b[p + 1], b[p + 2]]);
            p = p + 4;
            proof {
                k = k + 1;
            }
            assert(out@ =~= without_alpha(b.subrange(0, p as int)));
        }
        assert(b.subrange(0, p as int) =~= b);
        assert(3 * n == 3 * self.spec_width() * self.spec_height()) by (nonlinear_arith)
            requires
                n == self.spec_width() * self.spec_height(),
        ;
        out
    }

    /// Cuts the region out of the frame.
    pub fn crop(&self, g: Region) -> (r: Frame)
        requires
            self.wf(),
            g.x + g.width <= self.spec_width(),
            g.y + g.height <= self.spec_height(),
        ensures
            r.wf(),
            r.spec_width() == g.width,
            r.spec_height() == g.height,
            r.pixels() == cropped_rows(self.pixels(), g),
    {
        let mut rows: Vec<Vec<u8>> = Vec::new();
        let mut i: u32 = 0;
        while i < g.height
            invariant
                self.wf(),
                g.x + g.width <= self.spec_width(),
                g.y + g.height <= self.spec_height(),
                i <= g.height,
                rows@.len() == i,
                forall|k: int| 0 <= k < i ==> (#[trigger] rows@[k])@ == cropped_rows(self.pixels(), g)[k],
            decreases g.height - i,
        {
            let src_row = &self.rows[(g.y + i) as usize];
            assert(src_row@ == self.pixels()[g.y + i]);
            // the row's length is a `usize`, so byte offsets inside it fit
            let _len: usize = src_row.len();
            let from: usize = 4 * g.x as usize;
            let to: usize = 4 * g.x as usize + 4 * g.width as usize;
            let mut row: Vec<u8> = Vec::new();
            let mut j: usize = from;
            while j < to
                invariant
                    from <= j <= to,
                    to <= src_row@.len(),
                    row@ == src_row@.subrange(from as int, j as int),
                decreases to - j,
            {
                row.push(src_row[j]);
                j = j + 1;
                assert(row@ =~= src_row@.subrange(from as int, j as int));
            }
            rows.push(row);
            i = i + 1;
        }
        let r = Frame { width: g.width, height: g.height, rows };
        assert(r.pixels() =~= cropped_rows(self.pixels(), g));
        r
    }
}

/// A frame rebuilt from its own RGBA bytes is the same frame.
pub proof fn lemma_rgba_round_trip(f: Frame)
    requires
        f.wf(),
    ensures
        joined(f.pixels()).len() == 4 * f.spec_width() * f.spec_height(),
        split_rows(joined(f.pixels()), 4 * f.spec_width(), f.spec_height()) == f.pixels(),
{
    lemma_split_joined(f.pixels(), 4 * f.spec_width());
    assert(f.pixels().len() * (4 * f.spec_width()) == 4 * f.spec_width() * f.spec_height()) by (nonlinear_arith)
        requires
            f.pixels().len() == f.spec_height(),
    ;
}

} // verus!
