use pgrag::chunk::{
    chunks_by_character_count, special_token, token_chunk_sizes, SpecialToken, TokenEntry,
};

const DOCUMENT: &str =
    "The quick brown fox jumps over the lazy dog. In other news, the dish ran away with the spoon.";

#[test]
fn test_chunk_by_characters() {
    assert_eq!(
        chunks_by_character_count(DOCUMENT, 30, 10).unwrap(),
        vec![
            "The quick brown fox jumps over",
            "jumps over the lazy dog.",
            "In other news, the dish ran",
            "dish ran away with the spoon."
        ]
    );
}

#[test]
fn test_chunk_by_characters_2() {
    assert_eq!(
        chunks_by_character_count(DOCUMENT, 50, 20).unwrap(),
        vec![
            "The quick brown fox jumps over the lazy dog.",
            "In other news, the dish ran away with the spoon."
        ]
    );
}

#[test]
fn test_chunk_by_characters_empty() {
    assert_eq!(chunks_by_character_count("", 50, 20).unwrap(), vec![] as Vec<&str>);
}

#[test]
fn chunks_of_a_document_that_fits() {
    assert_eq!(chunks_by_character_count("hello world", 100, 0).unwrap(), vec!["hello world"]);
}

#[test]
fn chunks_without_overlap_are_no_longer_than_asked() {
    let chunks = chunks_by_character_count(DOCUMENT, 10, 0).unwrap();
    assert!(chunks.len() > 1);
    for chunk in &chunks {
        assert!(chunk.chars().count() <= 10);
        assert!(DOCUMENT.contains(chunk));
    }
}

#[test]
fn chunk_size_below_one_is_refused() {
    for (size, overlap) in [(0, 0), (-1, 0), (i32::MIN, 5), (10, -1), (0, -1), (10, i32::MIN)] {
        let error = chunks_by_character_count(DOCUMENT, size, overlap).unwrap_err();
        assert_eq!(
            error.message,
            "[neon_ai] max_characters must be >= 1 and max_overlap must be >= 0"
        );
    }
}

#[test]
fn overlap_that_is_not_below_the_chunk_size_is_refused() {
    for (size, overlap) in [(10, 10), (10, 11), (1, 1), (5, i32::MAX)] {
        let error = chunks_by_character_count(DOCUMENT, size, overlap).unwrap_err();
        assert_eq!(
            error.message,
            "[neon_ai] Error creating chunk config: The overlap is larger than or equal to the desired chunk capacity"
        );
    }
}

#[test]
fn largest_overlap_that_is_accepted() {
    assert!(chunks_by_character_count(DOCUMENT, 10, 9).is_ok());
    assert!(chunks_by_character_count(DOCUMENT, 1, 0).is_ok());
}

#[test]
fn token_chunk_sizes_that_are_accepted() {
    assert_eq!(token_chunk_sizes(8, 2, 512), Ok((8, 2)));
    assert_eq!(token_chunk_sizes(1, 0, 512), Ok((1, 0)));
    assert_eq!(token_chunk_sizes(512, 511, 512), Ok((512, 511)));
    assert_eq!(token_chunk_sizes(2, 1, 2), Ok((2, 1)));
}

#[test]
fn token_chunk_sizes_outside_the_model() {
    for (tokens, overlap) in [(0, 0), (-3, 0), (513, 0), (8, -1), (8, 512), (600, 700)] {
        let error = token_chunk_sizes(tokens, overlap, 512).unwrap_err();
        assert_eq!(
            error.message,
            "[neon_ai] max_tokens must be between 1 and 512, and max_overlap must be between 0 and 511"
        );
    }
}

#[test]
fn token_overlap_that_is_not_below_the_chunk_size_is_refused() {
    for (tokens, overlap) in [(2, 5), (8, 8), (1, 1), (8, 511), (511, 511)] {
        let error = token_chunk_sizes(tokens, overlap, 512).unwrap_err();
        assert_eq!(
            error.message,
            "[neon_ai] Error creating chunk config: The overlap is larger than or equal to the desired chunk capacity"
        );
    }
}

#[test]
fn token_chunk_sizes_of_a_model_that_takes_nothing() {
    let error = token_chunk_sizes(1, 0, 0).unwrap_err();
    assert_eq!(
        error.message,
        "[neon_ai] max_tokens must be between 1 and 0, and max_overlap must be between 0 and -1"
    );
    let error = token_chunk_sizes(1, 0, i32::MIN).unwrap_err();
    assert_eq!(
        error.message,
        "[neon_ai] max_tokens must be between 1 and -2147483648, and max_overlap must be between 0 and -2147483649"
    );
}

#[test]
fn token_overlap_is_refused_as_the_splitter_refuses_it() {
    let by_tokens = token_chunk_sizes(4, 4, 512).unwrap_err();
    let by_characters = chunks_by_character_count("some text", 4, 4).unwrap_err();
    assert_eq!(by_tokens, by_characters);
}

#[test]
fn special_token_of_a_text() {
    assert_eq!(
        special_token(TokenEntry::Text("[CLS]".to_string())),
        Some(SpecialToken {
            content: "[CLS]".to_string(),
            single_word: false,
            lstrip: false,
            rstrip: false,
            normalized: true,
        })
    );
}

#[test]
fn special_token_of_an_object() {
    let entry = TokenEntry::Fields {
        content: "[MASK]".to_string(),
        single_word: true,
        lstrip: true,
        rstrip: false,
        normalized: false,
    };
    assert_eq!(
        special_token(entry),
        Some(SpecialToken {
            content: "[MASK]".to_string(),
            single_word: true,
            lstrip: true,
            rstrip: false,
            normalized: false,
        })
    );
}

#[test]
fn special_token_of_anything_else() {
    assert_eq!(special_token(TokenEntry::Other), None);
}

#[test]
fn chunks_of_many_documents_and_sizes() {
    // documents out of a small alphabet that mixes letters, spaces, line
    // breaks, sentence ends and characters of two to four bytes
    let alphabet = [
        "a", "b", " ", " ", "\n", "\r\n", ". ", "! ", "\t", "é", "ü", "日", "本", "😀", "e\u{301}",
        "\u{200d}", "\n\n", "-", "1", "\u{663}",
    ];
    let mut state: u64 = 0x2545_f491_4f6c_dd1d;
    let mut next = move |bound: usize| -> usize {
        state ^= state << 13;
        state ^= state >> 7;
        state ^= state << 17;
        (state % bound as u64) as usize
    };
    for _ in 0..3000 {
        let length = next(60);
        let mut document = String::new();
        for _ in 0..length {
            document.push_str(alphabet[next(alphabet.len())]);
        }
        let capacity = 1 + next(12) as i32;
        let overlap = next(capacity as usize) as i32;
        let chunks = chunks_by_character_count(&document, capacity, overlap).unwrap();
        for chunk in &chunks {
            assert!(chunk.chars().count() <= capacity as usize);
            assert!(document.contains(chunk));
            assert!(!chunk.is_empty());
        }
    }
}
