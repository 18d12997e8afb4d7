use crate::errors::{ImageError, SynacorError};
use crate::machine::{ADDRESS_SPACE, MEMORY_SIZE};
use vstd::prelude::*;

verus! {

/// The word made of the bytes `lo` and `hi`, little-endian.
pub open spec fn le_word(lo: u8, hi: u8) -> u16 {
    (hi as int * 256 + lo as int) as u16
}

/// The words that a byte buffer holds, two bytes each, little-endian.
pub open spec fn image_words(bytes: Seq<u8>) -> Seq<u16> {
    Seq::new(bytes.len() / 2, |i: int| le_word(bytes[2 * i], bytes[2 * i + 1]))
}

/// The address space loaded from an image of `words`: the image first, every
/// other cell (the registers included) zero.
pub open spec fn initial_memory(words: Seq<u16>) -> Seq<u16> {
    Seq::new(
        ADDRESS_SPACE as nat,
        |i: int|
            if i < words.len() {
                words[i]
            } else {
                0
            },
    )
}

/// What loading a byte buffer gives: an odd length or more words than memory
/// cells is a malformed image, anything else the initial address space.
pub open spec fn load(bytes: Seq<u8>) -> Result<Seq<u16>, SynacorError> {
    if bytes.len() % 2 != 0 {
        Err(SynacorError::ParseError(ImageError::OddLength(bytes.len() as usize)))
    } else if bytes.len() / 2 > MEMORY_SIZE {
        Err(SynacorError::ParseError(ImageError::TooLarge((bytes.len() / 2) as usize)))
    } else {
        Ok(initial_memory(image_words(bytes)))
    }
}

/// Builds the initial address space from a program image of little-endian words.
pub fn load_image(buffer: &[u8]) -> (r: Result<Vec<u16>, SynacorError>)
    ensures
        r matches Ok(m) ==> load(buffer@) == Ok::<Seq<u16>, SynacorError>(m@),
        r matches Err(e) ==> load(buffer@) == Err::<Seq<u16>, SynacorError>(e),
{
    let len = buffer.len();
    if len % 2 != 0 {
        return Err(SynacorError::ParseError(ImageError::OddLength(len)));
    }
    let words = len / 2;
    if words > MEMORY_SIZE {
        return Err(SynacorError::ParseError(ImageError::TooLarge(words)));
    }
    let ghost image = image_words(buffer@);
    let mut memory: Vec<u16> = Vec::with_capacity(ADDRESS_SPACE);
    let mut i: usize = 0;
    while i < words
        invariant
            words == buffer@.len() / 2,
            words <= MEMORY_SIZE,
            i <= words,
            image == image_words(buffer@),
            memory@ == image.take(i as int),
        decreases words - i,
    {
        let lo = buffer[2 * i];
        let hi = buffer[2 * i + 1];
        memory.push((hi as u16) * 256 + lo as u16);
        proof {
            assert(memory@ =~= image.take(i + 1));
        }
        i = i + 1;
    }
    while memory.len() < ADDRESS_SPACE
        invariant
            words <= memory@.len() <= ADDRESS_SPACE,
            words == image.len(),
            forall|k: int| 0 <= k < words ==> memory@[k] == image[k],
            forall|k: int| words <= k < memory@.len() ==> memory@[k] == 0,
        decreases ADDRESS_SPACE - memory.len(),
    {
        memory.push(0);
    }
    assert(memory@ =~= initial_memory(image));
    Ok(memory)
}

} // verus!
