//! A single-file ustar archive, the upload format of the online compiler.

use vstd::prelude::*;

verus! {

/// Largest file size (exclusive) whose octal form fits the 11-digit size field.
pub const MAX_TAR_CONTENT: u64 = 8589934592;

/// `n` zero bytes.
pub open spec fn zeros(n: nat) -> Seq<u8> {
    Seq::new(n, |i: int| 0u8)
}

/// The `width` lowest octal digits of `n`, most significant first, in ASCII.
pub open spec fn octal_digits(n: nat, width: nat) -> Seq<u8>
    decreases width,
{
    if width == 0 {
        Seq::empty()
    } else {
        octal_digits(n / 8, (width - 1) as nat).push((48 + n % 8) as u8)
    }
}

/// The number that a string of ASCII octal digits denotes.
pub open spec fn octal_value(d: Seq<u8>) -> nat
    decreases d.len(),
{
    if d.len() == 0 {
        0
    } else {
        octal_value(d.drop_last()) * 8 + (d.last() - 48) as nat
    }
}

/// `8` to the power `w`.
pub open spec fn pow8(w: nat) -> nat
    decreases w,
{
    if w == 0 {
        1
    } else {
        8 * pow8((w - 1) as nat)
    }
}

/// The sum of all bytes of `s`.
pub open spec fn byte_sum(s: Seq<u8>) -> nat
    decreases s.len(),
{
    if s.len() == 0 {
        0
    } else {
        byte_sum(s.drop_last()) + s.last() as nat
    }
}

/// The 100-byte name field: the first 100 bytes of the name, zero padded.
pub open spec fn name_field(name: Seq<u8>) -> Seq<u8> {
    if name.len() <= 100 {
        name + zeros((100 - name.len()) as nat)
    } else {
        name.take(100)
    }
}

/// `"0000000\0"`: an all-zero octal field of eight bytes.
pub open spec fn zero_octal8() -> Seq<u8> {
    seq![48u8, 48, 48, 48, 48, 48, 48, 0]
}

/// `"0000644\0"`: the file mode field.
pub open spec fn mode_field() -> Seq<u8> {
    seq![48u8, 48, 48, 48, 54, 52, 52, 0]
}

/// `"00000000000\0"`: the modification time field.
pub open spec fn mtime_field() -> Seq<u8> {
    seq![48u8, 48, 48, 48, 48, 48, 48, 48, 48, 48, 48, 0]
}

/// `"ustar\0"` followed by the version `"00"`.
pub open spec fn magic_field() -> Seq<u8> {
    seq![117u8, 115, 116, 97, 114, 0, 48, 48]
}

/// A 32-byte owner name field holding `"root"`.
pub open spec fn owner_field() -> Seq<u8> {
    seq![114u8, 111, 111, 116, 0] + zeros(27)
}

/// Eight spaces: the checksum field while the checksum is computed.
pub open spec fn blank_checksum() -> Seq<u8> {
    seq![32u8, 32, 32, 32, 32, 32, 32, 32]
}

/// The header block with the given size digits and checksum field.
pub open spec fn header_with(name: Seq<u8>, size: nat, checksum: Seq<u8>) -> Seq<u8> {
    name_field(name) + mode_field() + zero_octal8() + zero_octal8() + octal_digits(size, 11).push(
        0,
    ) + mtime_field() + checksum + seq![48u8] + zeros(100) + magic_field() + owner_field()
        + owner_field() + zero_octal8() + zero_octal8() + zeros(167)
}

/// The header over which the checksum is taken.
pub open spec fn blank_header(name: Seq<u8>, size: nat) -> Seq<u8> {
    header_with(name, size, blank_checksum())
}

/// The checksum field: six octal digits, a NUL and a space.
pub open spec fn checksum_field(sum: nat) -> Seq<u8> {
    octal_digits(sum, 6) + seq![0u8, 32]
}

/// The complete header block of a regular file named `name` of `size` bytes.
pub open spec fn tar_header(name: Seq<u8>, size: nat) -> Seq<u8> {
    header_with(name, size, checksum_field(byte_sum(blank_header(name, size))))
}

/// Zero bytes that round `len` up to a multiple of 512.
pub open spec fn block_padding(len: nat) -> nat {
    ((512 - len % 512) % 512) as nat
}

/// The archive: header, content, padding to a block, two zero blocks.
pub open spec fn tar_archive(name: Seq<u8>, content: Seq<u8>) -> Seq<u8> {
    tar_header(name, content.len()) + content + zeros(block_padding(content.len())) + zeros(1024)
}

fn push_bytes(v: &mut Vec<u8>, bytes: &Vec<u8>)
    ensures
        final(v)@ == old(v)@ + bytes@,
{
    let mut i: usize = 0;
    while i < bytes.len()
        invariant
            i <= bytes@.len(),
            v@ == old(v)@ + bytes@.take(i as int),
        decreases bytes.len() - i,
    {
        v.push(bytes[i]);
        assert(bytes@.take(i + 1) == bytes@.take(i as int).push(bytes@[i as int]));
        i = i + 1;
    }
    assert(bytes@.take(bytes@.len() as int) == bytes@);
}

fn push_zeros(v: &mut Vec<u8>, n: usize)
    ensures
        final(v)@ == old(v)@ + zeros(n as nat),
{
    let mut i: usize = 0;
    while i < n
        invariant
            i <= n,
            v@ == old(v)@ + zeros(i as nat),
        decreases n - i,
    {
        v.push(0u8);
        assert(zeros((i + 1) as nat) == zeros(i as nat).push(0u8));
        i = i + 1;
    }
}

/// The `width` lowest octal digits of `n` in ASCII, most significant first.
pub fn octal_field(n: u64, width: usize) -> (d: Vec<u8>)
    ensures
        d@ == octal_digits(n as nat, width as nat),
    decreases width,
{
    if width == 0 {
        Vec::new()
    } else {
        let mut d = octal_field(n / 8, width - 1);
        d.push(48 + (n % 8) as u8);
        d
    }
}

fn push_header(v: &mut Vec<u8>, name: &[u8], size: u64, checksum: &Vec<u8>)
    ensures
        final(v)@ == old(v)@ + header_with(name@, size as nat, checksum@),
{
    let ghost start = v@;
    let copy_len = if name.len() < 100 {
        name.len()
    } else {
        100
    };
    let mut i: usize = 0;
    while i < copy_len
        invariant
            copy_len <= name@.len(),
            i <= copy_len,
            v@ == start + name@.take(i as int),
        decreases copy_len - i,
    {
        v.push(name[i]);
        assert(name@.take(i + 1) == name@.take(i as int).push(name@[i as int]));
        i = i + 1;
    }
    push_zeros(v, 100 - copy_len);
    assert(v@ == start + name_field(name@)) by {
        if name@.len() <= 100 {
            assert(name@.take(name@.len() as int) == name@);
        }
    }
    let ghost after_name = v@;
    let mode: Vec<u8> = vec![48u8, 48, 48, 48, 54, 52, 52, 0];
    let zero8: Vec<u8> = vec![48u8, 48, 48, 48, 48, 48, 48, 0];
    let mtime: Vec<u8> = vec![48u8, 48, 48, 48, 48, 48, 48, 48, 48, 48, 48, 0];
    let magic: Vec<u8> = vec![117u8, 115, 116, 97, 114, 0, 48, 48];
    let root: Vec<u8> = vec![114u8, 111, 111, 116, 0];
    push_bytes(v, &mode);
    push_bytes(v, &zero8);
    push_bytes(v, &zero8);
    let mut size_digits = octal_field(size, 11);
    size_digits.push(0);
    push_bytes(v, &size_digits);
    push_bytes(v, &mtime);
    push_bytes(v, checksum);
    v.push(48u8);
    push_zeros(v, 100);
    push_bytes(v, &magic);
    push_bytes(v, &root);
    push_zeros(v, 27);
    push_bytes(v, &root);
    push_zeros(v, 27);
    push_bytes(v, &zero8);
    push_bytes(v, &zero8);
    push_zeros(v, 167);
    assert(v@ =~= start + header_with(name@, size as nat, checksum@));
}

/// The octal form of `n` has exactly `width` digits.
pub proof fn lemma_octal_digits_len(n: nat, width: nat)
    ensures
        octal_digits(n, width).len() == width,
    decreases width,
{
    if width > 0 {
        lemma_octal_digits_len(n / 8, (width - 1) as nat);
    }
}

/// Every header block is 512 bytes long.
pub proof fn lemma_header_len(name: Seq<u8>, size: nat, checksum: Seq<u8>)
    requires
        checksum.len() == 8,
    ensures
        header_with(name, size, checksum).len() == 512,
{
    lemma_octal_digits_len(size, 11);
}

/// Reading back `width` octal digits gives the number they were written
/// from, whenever it fits.
pub proof fn lemma_octal_round_trip(n: nat, width: nat)
    requires
        n < pow8(width),
    ensures
        octal_value(octal_digits(n, width)) == n,
    decreases width,
{
    if width > 0 {
        let p = pow8((width - 1) as nat);
        assert(n / 8 < p) by (nonlinear_arith)
            requires
                n < 8 * p,
        ;
        lemma_octal_round_trip(n / 8, (width - 1) as nat);
        let d = octal_digits(n, width);
        assert(d.drop_last() == octal_digits(n / 8, (width - 1) as nat));
        assert((n / 8) * 8 + n % 8 == n) by (nonlinear_arith);
    } else {
        assert(pow8(0) == 1);
    }
}

/// Layout of an archive: it is a whole number of 512-byte blocks, and the
/// file content follows the header block unchanged.
pub proof fn lemma_archive_layout(name: Seq<u8>, content: Seq<u8>)
    ensures
        tar_archive(name, content).len() == 512 + content.len() + block_padding(content.len())
            + 1024,
        tar_archive(name, content).len() % 512 == 0,
        tar_archive(name, content).subrange(512, 512 + content.len() as int) == content,
{
    let sum = byte_sum(blank_header(name, content.len()));
    lemma_octal_digits_len(sum, 6);
    lemma_header_len(name, content.len(), checksum_field(sum));
    let h = tar_header(name, content.len());
    let a = tar_archive(name, content);
    assert(a.subrange(512, 512 + content.len() as int) =~= content);
    let len = content.len();
    assert((len + (512 - len % 512) % 512) % 512 == 0) by (nonlinear_arith);
}

/// The size field of the header (11 octal digits at offset 124) reads back
/// as the content length.
pub proof fn lemma_size_field(name: Seq<u8>, content: Seq<u8>)
    requires
        content.len() < MAX_TAR_CONTENT,
    ensures
        octal_value(tar_archive(name, content).subrange(124, 135)) == content.len(),
{
    let size = content.len();
    let sum = byte_sum(blank_header(name, size));
    lemma_octal_digits_len(sum, 6);
    lemma_octal_digits_len(size, 11);
    lemma_header_len(name, size, checksum_field(sum));
    assert(pow8(11) == MAX_TAR_CONTENT) by {
        reveal_with_fuel(pow8, 12);
    }
    lemma_octal_round_trip(size, 11);
    let a = tar_archive(name, content);
    assert(a.subrange(124, 135) =~= octal_digits(size, 11));
}

/// The checksum field (6 octal digits at offset 148) reads back as the sum
/// of the header bytes with that field taken as eight spaces, which is how
/// a tar reader verifies the header.
pub proof fn lemma_checksum_field(name: Seq<u8>, content: Seq<u8>)
    ensures
        ({
            let h = tar_archive(name, content).subrange(0, 512);
            octal_value(h.subrange(148, 154)) == byte_sum(
                h.subrange(0, 148) + blank_checksum() + h.subrange(156, 512),
            )
        }),
{
    let size = content.len();
    let blank = blank_header(name, size);
    let sum = byte_sum(blank);
    lemma_octal_digits_len(sum, 6);
    lemma_octal_digits_len(size, 11);
    lemma_header_len(name, size, checksum_field(sum));
    lemma_header_len(name, size, blank_checksum());
    lemma_byte_sum_bound(blank);
    assert(pow8(6) == 262144) by {
        reveal_with_fuel(pow8, 7);
    }
    lemma_octal_round_trip(sum, 6);
    let h = tar_archive(name, content).subrange(0, 512);
    assert(h =~= tar_header(name, size));
    assert(h.subrange(148, 154) =~= octal_digits(sum, 6));
    assert(h.subrange(0, 148) + blank_checksum() + h.subrange(156, 512) =~= blank);
}

/// A NUL-terminated field as a reader takes it: the bytes before the first
/// zero byte, or all of them when there is none.
pub open spec fn until_nul(s: Seq<u8>) -> Seq<u8>
    decreases s.len(),
{
    if s.len() == 0 {
        s
    } else if s[0] == 0 {
        Seq::empty()
    } else {
        seq![s[0]] + until_nul(s.drop_first())
    }
}

proof fn lemma_until_nul_of_padded(name: Seq<u8>, k: nat)
    requires
        forall|i: int| 0 <= i < name.len() ==> name[i] != 0,
    ensures
        until_nul(name + zeros(k)) == name,
    decreases name.len(),
{
    let s = name + zeros(k);
    if name.len() == 0 {
        if k > 0 {
            assert(s[0] == 0);
        }
        assert(s =~= zeros(k));
    } else {
        let rest = name.drop_first();
        assert forall|i: int| 0 <= i < rest.len() implies rest[i] != 0 by {
            assert(rest[i] == name[i + 1]);
        }
        lemma_until_nul_of_padded(rest, k);
        assert(s.drop_first() =~= rest + zeros(k));
        assert(seq![name[0]] + rest =~= name);
    }
}

/// A reader of the archive finds one regular file named `name`: the name
/// field (100 bytes at offset 0) reads back as the name, the type flag at
/// offset 156 is `'0'` (a regular file), and the archive ends with the two
/// zero blocks that mark its end.
pub proof fn lemma_entry_fields(name: Seq<u8>, content: Seq<u8>)
    requires
        1 <= name.len() <= 100,
        forall|i: int| 0 <= i < name.len() ==> name[i] != 0,
    ensures
        until_nul(tar_archive(name, content).subrange(0, 100)) == name,
        tar_archive(name, content)[156] == 48,
        ({
            let a = tar_archive(name, content);
            a.subrange(a.len() - 1024, a.len() as int) == zeros(1024)
        }),
{
    let size = content.len();
    let sum = byte_sum(blank_header(name, size));
    lemma_octal_digits_len(sum, 6);
    lemma_octal_digits_len(size, 11);
    lemma_header_len(name, size, checksum_field(sum));
    let a = tar_archive(name, content);
    let h = tar_header(name, size);
    assert(a.subrange(0, 100) =~= name_field(name));
    lemma_until_nul_of_padded(name, (100 - name.len()) as nat);
    assert(h[156] == 48);
    assert(a[156] == h[156]);
    assert(a.subrange(a.len() - 1024, a.len() as int) =~= zeros(1024));
}

proof fn lemma_byte_sum_bound(s: Seq<u8>)
    ensures
        byte_sum(s) <= 255 * s.len(),
    decreases s.len(),
{
    if s.len() > 0 {
        lemma_byte_sum_bound(s.drop_last());
    }
}

/// The sum of the bytes of `s`.
fn sum_bytes(s: &Vec<u8>) -> (t: u32)
    requires
        s@.len() <= 1024,
    ensures
        t as nat == byte_sum(s@),
{
    let mut t: u32 = 0;
    let mut i: usize = 0;
    while i < s.len()
        invariant
            s@.len() <= 1024,
            i <= s@.len(),
            t as nat == byte_sum(s@.take(i as int)),
            t <= 255 * i,
        decreases s.len() - i,
    {
        assert(s@.take(i + 1).drop_last() == s@.take(i as int));
        t = t + s[i] as u32;
        i = i + 1;
    }
    assert(s@.take(s@.len() as int) == s@);
    t
}

/// A ustar archive holding one regular file `filename` with `content`:
/// a 512-byte header block (name, mode 0644, size, checksum, owner `root`),
/// the content zero padded to a whole block, and two zero blocks.
pub fn create_tarball(filename: &str, content: &[u8]) -> (tar: Vec<u8>)
    requires
        content@.len() < MAX_TAR_CONTENT,
    ensures
        tar@ == tar_archive(vstd::utf8::encode_utf8(filename@), content@),
{
    let name = filename.as_bytes();
    let size = content.len() as u64;
    let spaces: Vec<u8> = vec![32u8, 32, 32, 32, 32, 32, 32, 32];
    let mut blank: Vec<u8> = Vec::new();
    push_header(&mut blank, name, size, &spaces);
    assert(blank@ =~= blank_header(name@, content@.len()));
    proof {
        lemma_header_len(name@, content@.len(), blank_checksum());
    }
    let sum = sum_bytes(&blank);
    let mut checksum = octal_field(sum as u64, 6);
    checksum.push(0u8);
    checksum.push(32u8);
    assert(checksum@ =~= checksum_field(byte_sum(blank@)));
    let mut tar: Vec<u8> = Vec::new();
    push_header(&mut tar, name, size, &checksum);
    let mut i: usize = 0;
    let ghost with_header = tar@;
    while i < content.len()
        invariant
            i <= content@.len(),
            tar@ == with_header + content@.take(i as int),
        decreases content.len() - i,
    {
        tar.push(content[i]);
        assert(content@.take(i + 1) == content@.take(i as int).push(content@[i as int]));
        i = i + 1;
    }
    assert(content@.take(content@.len() as int) == content@);
    let padding = (512 - content.len() % 512) % 512;
    push_zeros(&mut tar, padding);
    push_zeros(&mut tar, 1024);
    assert(tar@ =~= tar_archive(name@, content@));
    tar
}

} // verus!
