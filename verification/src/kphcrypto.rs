use vstd::prelude::*;
use crypto::aes::{cbc_decryptor, cbc_encryptor, KeySize};
use crypto::blockmodes::{NoPadding, PkcsPadding};
use crypto::buffer::{BufferResult, RefReadBuffer, RefWriteBuffer, WriteBuffer};
use crypto::symmetriccipher::{Decryptor, Encryptor, SymmetricCipherError};
use crate::error::{CmdipassError, ErrorKind};

verus! {

/// Length of the shared key, in bytes.
pub const KEY_LENGTH: usize = 32;

/// Length of the nonce, which also starts the block chain, in bytes.
pub const NONCE_LENGTH: usize = 16;

/// Length of one block of the cipher, in bytes.
pub const BLOCK_LENGTH: usize = 16;

/// Size of the buffer through which the cipher's output passes, in bytes.
pub const CHUNK_LENGTH: usize = 256;

/// The error of the outside cipher, which is carried and never looked into.
#[verifier::external_type_specification]
#[verifier::external_body]
pub struct ExSymmetricCipherError(SymmetricCipherError);

/// The ciphertext that the outside cipher gives for `data`: AES-256 in CBC mode with PKCS
/// padding, for a key of 32 and an initialization vector of 16 bytes.
pub uninterp spec fn cbc_encryption(key: Seq<u8>, iv: Seq<u8>, data: Seq<u8>) -> Seq<u8>;

/// The blocks that the outside cipher gives for the ciphertext `data` when it leaves the
/// padding alone, or `None` where it refuses `data` (a length that is no multiple of the
/// block's).
pub uninterp spec fn cbc_decryption(key: Seq<u8>, iv: Seq<u8>, data: Seq<u8>) -> Option<Seq<u8>>;

/// A running encryption: the cipher of the outside crate together with the input it reads.
/// Trusted as a whole: the cipher is a boxed object of a trait of the outside crate, into
/// which the verifier cannot look.
#[verifier::external_body]
pub struct EncryptStream<'a> {
    cipher: Box<dyn Encryptor>,
    input: RefReadBuffer<'a>,
}

/// A running decryption, held like `EncryptStream`.
#[verifier::external_body]
pub struct DecryptStream<'a> {
    cipher: Box<dyn Decryptor>,
    input: RefReadBuffer<'a>,
}

/// What one call of the cipher gave: how many bytes it wrote, and whether more are to come.
pub struct Step {
    pub count: usize,
    pub more: bool,
}

/// The bytes that an encryption has still to hand out.
pub uninterp spec fn encrypt_pending(stream: EncryptStream) -> Seq<u8>;

/// The bytes that a decryption has still to hand out before it ends or fails.
pub uninterp spec fn decrypt_pending(stream: DecryptStream) -> Seq<u8>;

/// Whether a decryption will end in a failure of the cipher.
pub uninterp spec fn decrypt_fails(stream: DecryptStream) -> bool;

/// Calls `crypto::aes::cbc_encryptor`, with padding, and `RefReadBuffer::new`. Trusted: what
/// the stream will hand out is the ciphertext of `data`; it is as long as `data` with its
/// padding; and the blocks that the cipher gives back for it, under the same key and
/// initialization vector, are `data` with its padding.
#[verifier::external_body]
fn open_encryption<'a>(data: &'a [u8], key: &[u8], iv: &[u8]) -> (stream: EncryptStream<'a>)
    requires
        key@.len() == KEY_LENGTH,
        iv@.len() == NONCE_LENGTH,
    ensures
        encrypt_pending(stream) == cbc_encryption(key@, iv@, data@),
        encrypt_pending(stream).len() == padded(data@).len(),
        cbc_decryption(key@, iv@, encrypt_pending(stream)) == Some(padded(data@)),
{
    EncryptStream {
        cipher: cbc_encryptor(KeySize::KeySize256, key, iv, PkcsPadding),
        input: RefReadBuffer::new(data),
    }
}

/// Calls `crypto::aes::cbc_decryptor`, without padding, and `RefReadBuffer::new`. Trusted:
/// the stream fails exactly where the length of `data` is no multiple of the block's, which
/// is where the cipher refuses `data`; else it hands out the blocks that the cipher gives
/// for `data`, which are as long as `data`.
#[verifier::external_body]
fn open_decryption<'a>(data: &'a [u8], key: &[u8], iv: &[u8]) -> (stream: DecryptStream<'a>)
    requires
        key@.len() == KEY_LENGTH,
        iv@.len() == NONCE_LENGTH,
    ensures
        decrypt_fails(stream) <==> data@.len() % BLOCK_LENGTH as nat != 0,
        decrypt_fails(stream) <==> cbc_decryption(key@, iv@, data@) is None,
        !decrypt_fails(stream) ==> cbc_decryption(key@, iv@, data@) == Some(
            decrypt_pending(stream),
        ) && decrypt_pending(stream).len() == data@.len(),
{
    DecryptStream {
        cipher: cbc_decryptor(KeySize::KeySize256, key, iv, NoPadding),
        input: RefReadBuffer::new(data),
    }
}

/// Calls `Encryptor::encrypt` once, at the end of input, with `buffer` as the place to write.
/// It returns how many bytes were written and whether more are to come. Trusted: the bytes
/// written are the next ones pending; more are to come only after a full buffer; none are
/// pending when no more are to come; an encryption with padding never fails.
#[verifier::external_body]
fn encrypt_step(stream: &mut EncryptStream<'_>, buffer: &mut [u8; 256]) -> (step: Result<Step, SymmetricCipherError>)
    ensures
        step is Ok,
        step matches Ok(s) ==> {
            &&& s.count <= CHUNK_LENGTH
            &&& s.count <= encrypt_pending(*old(stream)).len()
            &&& final(buffer)@.subrange(0, s.count as int) == encrypt_pending(*old(stream)).subrange(
                0,
                s.count as int,
            )
            &&& encrypt_pending(*final(stream)) == encrypt_pending(*old(stream)).skip(
                s.count as int,
            )
            &&& s.more ==> s.count == CHUNK_LENGTH
            &&& !s.more ==> encrypt_pending(*final(stream)).len() == 0
        },
{
    let mut output = RefWriteBuffer::new(buffer);
    let result = stream.cipher.encrypt(&mut stream.input, &mut output, true)?;
    let count = output.position();
    match result {
        BufferResult::BufferOverflow => Ok(Step { count, more: true }),
        BufferResult::BufferUnderflow => Ok(Step { count, more: false }),
    }
}

/// Calls `Decryptor::decrypt` once, like `encrypt_step`, on a decryptor that was made without
/// padding and so looks at none. Trusted: the same of the bytes written; it fails only on a
/// stream that fails, and such a stream never ends otherwise.
#[verifier::external_body]
fn decrypt_step(stream: &mut DecryptStream<'_>, buffer: &mut [u8; 256]) -> (step: Result<Step, SymmetricCipherError>)
    ensures
        step is Err ==> decrypt_fails(*old(stream)),
        step is Ok ==> decrypt_fails(*final(stream)) == decrypt_fails(*old(stream)),
        step matches Ok(s) ==> {
            &&& s.count <= CHUNK_LENGTH
            &&& s.count <= decrypt_pending(*old(stream)).len()
            &&& final(buffer)@.subrange(0, s.count as int) == decrypt_pending(*old(stream)).subrange(
                0,
                s.count as int,
            )
            &&& decrypt_pending(*final(stream)) == decrypt_pending(*old(stream)).skip(
                s.count as int,
            )
            &&& s.more ==> s.count == CHUNK_LENGTH
            &&& !s.more ==> decrypt_pending(*final(stream)).len() == 0 && !decrypt_fails(
                *old(stream),
            )
        },
{
    let mut output = RefWriteBuffer::new(buffer);
    let result = stream.cipher.decrypt(&mut stream.input, &mut output, true)?;
    let count = output.position();
    match result {
        BufferResult::BufferOverflow => Ok(Step { count, more: true }),
        BufferResult::BufferUnderflow => Ok(Step { count, more: false }),
    }
}

/// Appends the first `count` bytes of `buffer` to `sink`.
fn append_chunk(sink: &mut Vec<u8>, buffer: &[u8; 256], count: usize)
    requires
        count <= CHUNK_LENGTH,
    ensures
        final(sink)@ == old(sink)@ + buffer@.subrange(0, count as int),
{
    let mut i: usize = 0;
    while i < count
        invariant
            i <= count <= CHUNK_LENGTH,
            sink@ == old(sink)@ + buffer@.subrange(0, i as int),
        decreases count - i,
    {
        sink.push(buffer[i]);
        i += 1;
        assert(buffer@.subrange(0, i as int) == buffer@.subrange(0, i - 1).push(buffer@[i - 1]));
    }
}

/// How many bytes of padding the cipher adds to data of a length: as many as fill the last
/// block, and a whole block where the last one is full.
pub open spec fn fill_of(length: nat) -> nat {
    (BLOCK_LENGTH - length % BLOCK_LENGTH as nat) as nat
}

/// Data with the padding that the cipher adds: every byte of the padding holds the length
/// of the padding. No data gets no padding.
pub open spec fn padded(data: Seq<u8>) -> Seq<u8> {
    if data.len() == 0 {
        data
    } else {
        data + Seq::new(fill_of(data.len()), |i: int| fill_of(data.len()) as u8)
    }
}

/// Whether blocks end in padding: the last byte holds a length from 1 to 16, and that many
/// bytes at the end hold the same.
pub open spec fn well_padded(blocks: Seq<u8>) -> bool {
    &&& blocks.len() > 0
    &&& 1 <= blocks.last() <= BLOCK_LENGTH
    &&& blocks.last() <= blocks.len()
    &&& forall|i: int| blocks.len() - blocks.last() <= i < blocks.len() ==> blocks[i] == blocks.last()
}

/// Blocks without their padding, or `None` where they do not end in padding. No blocks are
/// no data.
pub open spec fn unpadded(blocks: Seq<u8>) -> Option<Seq<u8>> {
    if blocks.len() == 0 {
        Some(blocks)
    } else if well_padded(blocks) {
        Some(blocks.subrange(0, blocks.len() - blocks.last()))
    } else {
        None
    }
}

/// What is padded loses its padding again, and is what it was.
pub proof fn lemma_padding_is_stripped(data: Seq<u8>)
    ensures
        unpadded(padded(data)) == Some(data),
        padded(data).len() % BLOCK_LENGTH as nat == 0,
        data.len() > 0 ==> padded(data).len() == (data.len() / BLOCK_LENGTH as nat + 1)
            * BLOCK_LENGTH,
{
    if data.len() > 0 {
        let fill = fill_of(data.len());
        let blocks = padded(data);
        assert(1 <= fill <= 16);
        assert(blocks.len() == data.len() + fill);
        assert(blocks.last() == fill as u8);
        assert(blocks.subrange(0, blocks.len() - blocks.last()) =~= data);
    }
}

/// Takes the padding off the blocks that the cipher gave.
fn strip_padding(blocks: Vec<u8>) -> (result: Option<Vec<u8>>)
    ensures
        result is Some <==> unpadded(blocks@) is Some,
        result matches Some(data) ==> unpadded(blocks@) == Some(data@),
{
    let length = blocks.len();
    if length == 0 {
        return Some(blocks);
    }
    let last = blocks[length - 1];
    if last < 1 || last > 16 || last as usize > length {
        return None;
    }
    let fill = last as usize;
    let mut i: usize = length - fill;
    while i < length
        invariant
            length == blocks@.len(),
            length - fill <= i <= length,
            fill == last,
            last == blocks@.last(),
            forall|j: int| length - fill <= j < i ==> blocks@[j] == last,
        decreases length - i,
    {
        if blocks[i] != last {
            return None;
        }
        i += 1;
    }
    let mut data = blocks;
    data.truncate(length - fill);
    Some(data)
}

/// What `encrypt` owes for these arguments: the ciphertext where the key and the nonce have
/// their lengths, and a failure of the cipher else.
pub open spec fn encrypt_result(data: Seq<u8>, key: Seq<u8>, iv: Seq<u8>) -> Option<Seq<u8>> {
    if key.len() == KEY_LENGTH && iv.len() == NONCE_LENGTH {
        Some(cbc_encryption(key, iv, data))
    } else {
        None
    }
}

/// What `decrypt` owes for these arguments: the blocks that the cipher gives, without their
/// padding; a failure where the key or the nonce has another length than it takes, where
/// the cipher refuses the data, and where the blocks do not end in padding.
pub open spec fn decrypt_result(data: Seq<u8>, key: Seq<u8>, iv: Seq<u8>) -> Option<Seq<u8>> {
    if key.len() == KEY_LENGTH && iv.len() == NONCE_LENGTH {
        match cbc_decryption(key, iv, data) {
            Some(blocks) => unpadded(blocks),
            None => None,
        }
    } else {
        None
    }
}

/// Text of the failure that both directions report.
pub const CIPHER_FAILURE: &'static str =
    "The symmetric cipher refused its input: wrong key or nonce length, truncated data or bad padding.";

fn cipher_failure() -> (error: CmdipassError)
    ensures
        error.has(ErrorKind::Crypto, CIPHER_FAILURE@),
{
    CmdipassError::new(ErrorKind::Crypto, CIPHER_FAILURE)
}

/// Encrypts `data` under a key of 32 bytes, with a nonce of 16 bytes as initialization
/// vector. The ciphertext is as long as `data` with its padding, and decrypts to `data`
/// again under the same key and nonce.
pub fn encrypt(data: &[u8], key: &[u8], iv: &[u8]) -> (result: Result<Vec<u8>, CmdipassError>)
    ensures
        result is Ok <==> encrypt_result(data@, key@, iv@) is Some,
        result matches Ok(ciphertext) ==> {
            &&& encrypt_result(data@, key@, iv@) == Some(ciphertext@)
            &&& ciphertext@.len() == padded(data@).len()
            &&& decrypt_result(ciphertext@, key@, iv@) == Some(data@)
        },
        result matches Err(e) ==> e.has(ErrorKind::Crypto, CIPHER_FAILURE@),
{
    if key.len() != KEY_LENGTH || iv.len() != NONCE_LENGTH {
        return Err(cipher_failure());
    }
    let mut stream = open_encryption(data, key, iv);
    let ghost total = encrypt_pending(stream);
    let mut final_result: Vec<u8> = Vec::new();
    let mut buffer: [u8; 256] = [0u8; 256];
    loop
        invariant
            final_result@ + encrypt_pending(stream) == total,
        ensures
            final_result@ == total,
        decreases encrypt_pending(stream).len(),
    {
        let ghost before = encrypt_pending(stream);
        match encrypt_step(&mut stream, &mut buffer) {
            Ok(step) => {
                append_chunk(&mut final_result, &buffer, step.count);
                assert(before == before.subrange(0, step.count as int) + before.skip(
                    step.count as int,
                ));
                if !step.more {
                    break ;
                }
            },
            Err(_) => {
                return Err(cipher_failure());
            },
        }
    }
    proof {
        lemma_padding_is_stripped(data@);
    }
    Ok(final_result)
}

/// Decrypts `encrypted_data` under a key of 32 bytes and a nonce of 16 bytes, and takes the
/// padding off. Data whose length is no multiple of the block's, blocks that do not end in
/// padding, and a key or a nonce of another length come back as one failure of class
/// `Crypto`.
pub fn decrypt(encrypted_data: &[u8], key: &[u8], iv: &[u8]) -> (result: Result<
    Vec<u8>,
    CmdipassError,
>)
    ensures
        result is Ok <==> decrypt_result(encrypted_data@, key@, iv@) is Some,
        result matches Ok(plaintext) ==> decrypt_result(encrypted_data@, key@, iv@) == Some(
            plaintext@,
        ),
        result matches Err(e) ==> e.has(ErrorKind::Crypto, CIPHER_FAILURE@),
        encrypted_data@.len() % BLOCK_LENGTH as nat != 0 ==> result is Err,
{
    if key.len() != KEY_LENGTH || iv.len() != NONCE_LENGTH {
        return Err(cipher_failure());
    }
    let mut stream = open_decryption(encrypted_data, key, iv);
    let ghost total = decrypt_pending(stream);
    let ghost fails = decrypt_fails(stream);
    let mut blocks: Vec<u8> = Vec::new();
    let mut buffer: [u8; 256] = [0u8; 256];
    loop
        invariant
            blocks@ + decrypt_pending(stream) == total,
            decrypt_fails(stream) == fails,
            fails ==> decrypt_result(encrypted_data@, key@, iv@) is None,
        ensures
            blocks@ == total,
            !fails,
        decreases decrypt_pending(stream).len(),
    {
        let ghost before = decrypt_pending(stream);
        match decrypt_step(&mut stream, &mut buffer) {
            Ok(step) => {
                append_chunk(&mut blocks, &buffer, step.count);
                assert(before == before.subrange(0, step.count as int) + before.skip(
                    step.count as int,
                ));
                if !step.more {
                    break ;
                }
            },
            Err(_) => {
                return Err(cipher_failure());
            },
        }
    }
    match strip_padding(blocks) {
        Some(final_result) => Ok(final_result),
        None => Err(cipher_failure()),
    }
}

} // verus!
