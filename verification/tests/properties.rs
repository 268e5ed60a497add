use std::borrow::Cow;
use std::cell::Cell;

use capacity_builder::appendable_to_string;
use capacity_builder::AllocationError;
use capacity_builder::BytesBuilder;
use capacity_builder::BytesType;
use capacity_builder::DeferredStringBuilder;
use capacity_builder::HipString;
use capacity_builder::Phase;
use capacity_builder::StringAppendable;
use capacity_builder::StringAppendableValue;
use capacity_builder::StringBuilder;
use capacity_builder::StringType;
use capacity_builder::StringTypeMut;

fn replaced(input: &'static str, from: &'static str, to: &'static str) -> String {
  StringBuilder::<String>::build(|builder| {
    builder.append_with_replace(input, from, to);
  })
  .unwrap()
}

fn measured_replace(input: &'static str, from: &'static str, to: &'static str) -> usize {
  StringBuilder::<String>::measure(&|builder: &mut StringBuilder<String>| {
    builder.append_with_replace(input, from, to);
  })
}

struct Shown<F: Fn(&mut StringBuilder<String>)>(F);

impl<F: Fn(&mut StringBuilder<String>)> std::fmt::Display for Shown<F> {
  fn fmt(&self, f: &mut std::fmt::Formatter<'_>) -> std::fmt::Result {
    StringBuilder::fmt(f, |builder| (self.0)(builder))
  }
}

struct Failing;

impl StringAppendableValue for Failing {
  fn byte_len(&self) -> usize {
    1
  }

  fn push_to<TString: StringTypeMut>(&self, _text: &mut TString) {
    unreachable!();
  }

  fn write_to_formatter(
    &self,
    _fmt: &mut std::fmt::Formatter<'_>,
  ) -> std::fmt::Result {
    Err(std::fmt::Error)
  }
}

#[test]
fn filled_length_is_measured_capacity() {
  let routine = |builder: &mut StringBuilder<String>| {
    builder.append("Hello, ");
    builder.append('w');
    builder.append(-1234i32);
    builder.append(Some("é→"));
    builder.append(None::<&str>);
    builder.append_with_replace("a/b/c", "/", "::");
    builder.append_owned_unsafe(3, || "xyz".to_string());
  };
  let capacity = StringBuilder::<String>::measure(&routine);
  let text = StringBuilder::<String>::build(routine).unwrap();
  assert_eq!(text, "Hello, w-1234é→a::b::cxyz");
  assert_eq!(capacity, text.len());
  assert_eq!(capacity, 28);
}

#[test]
fn filled_length_is_measured_capacity_bytes() {
  let routine = |builder: &mut BytesBuilder<Vec<u8>>| {
    builder.append("ab");
    builder.append(7u8);
    builder.append_be(0x0102u16);
    builder.append_le(-2i64);
    builder.append('€');
  };
  let capacity = BytesBuilder::<Vec<u8>>::measure(&routine);
  let bytes = BytesBuilder::<Vec<u8>>::build(routine).unwrap();
  assert_eq!(capacity, bytes.len());
  assert_eq!(
    bytes,
    vec![
      b'a', b'b', 7, 1, 2, 0xfe, 0xff, 0xff, 0xff, 0xff, 0xff, 0xff, 0xff, 0xe2, 0x82,
      0xac
    ]
  );
}

#[test]
fn len_reports_capacity_then_length() {
  let seen = Cell::new(0usize);
  let text = StringBuilder::<String>::build(|builder| {
    assert_eq!(builder.len(), 0);
    builder.append("abc");
    assert_eq!(builder.len(), 3);
    builder.append(12345u64);
    assert_eq!(builder.len(), 8);
    seen.set(seen.get() + 1);
  })
  .unwrap();
  assert_eq!(text, "abc12345");
  assert_eq!(seen.get(), 2);
}

#[test]
fn phases_of_a_build() {
  let phases = Cell::new(Vec::new());
  let _ = StringBuilder::<String>::build(|builder| {
    let mut so_far = phases.take();
    so_far.push(builder.phase());
    phases.set(so_far);
    builder.append("x");
  })
  .unwrap();
  assert_eq!(phases.take(), vec![Phase::Measuring, Phase::Filling]);
}

#[test]
fn round_trip_equals_concatenation() {
  let text = StringBuilder::<String>::build(|builder| {
    builder.append("Hello, ");
    builder.append("world!");
    builder.append("testing ");
  })
  .unwrap();
  let mut naive = String::new();
  naive.push_str("Hello, ");
  naive.push_str("world!");
  naive.push_str("testing ");
  assert_eq!(text, naive);
  assert_eq!(text.len(), 21);
}

#[test]
fn replace_examples() {
  assert_eq!(replaced("package/test", "/", "+"), "package+test");
  assert_eq!(replaced("////", "/", "+"), "++++");
  assert_eq!(replaced("", "/", "+"), "");
  assert_eq!(replaced("", "", "+"), "");
  assert_eq!(replaced("", "", ""), "");
}

#[test]
fn replace_scans_left_to_right_without_overlap() {
  assert_eq!(replaced("aaaa", "aa", "b"), "bb");
  assert_eq!(replaced("aaa", "aa", "b"), "ba");
  assert_eq!(replaced("abab", "aba", "x"), "xb");
  assert_eq!(replaced("ababab", "abab", "x"), "xab");
  assert_eq!(replaced("a", "a", "aa"), "aa");
  assert_eq!(replaced("xaax", "a", "aa"), "xaaaax");
  assert_eq!(replaced("abc", "abcd", "x"), "abc");
  assert_eq!(replaced("abc", "abc", ""), "");
  assert_eq!(replaced("abcabc", "bc", ""), "aa");
}

#[test]
fn replace_agrees_with_std() {
  let cases = [
    ("package/test", "/", "+"),
    ("/package/test/", "/", "::"),
    ("////", "//", "/"),
    ("aaaaa", "aa", "a"),
    ("héllo→wörld→", "→", "->"),
    ("héllo→wörld→", "ö", "oe"),
    ("日本語日本語", "本", "ほん"),
    ("no match here", "zzz", "y"),
  ];
  for (input, from, to) in cases {
    assert_eq!(replaced(input, from, to), input.replace(from, to));
  }
}

#[test]
fn replace_length_by_formula() {
  // equal lengths: the length of the source
  assert_eq!(measured_replace("package/test/", "/", "+"), 13);
  // longer: 13 + 2 * (3 - 1)
  assert_eq!(measured_replace("package/test/", "/", "---"), 17);
  // shorter: 14 - 2 * (2 - 1)
  assert_eq!(measured_replace("a::b::c::d::e", "::", ":"), 9);
  // three occurrences that do not overlap in "aaaaaaa": 7 - 3 * (2 - 0)
  assert_eq!(measured_replace("aaaaaaa", "aa", ""), 1);
  // bytes, not characters: "→" is three bytes
  assert_eq!(measured_replace("a→b", "→", "-"), 3);
  assert_eq!(measured_replace("", "/", "+++"), 0);
}

#[test]
fn replace_while_formatting() {
  let shown = Shown(|builder: &mut StringBuilder<String>| {
    builder.append("<");
    builder.append_with_replace("a/b//c", "/", "::");
    assert_eq!(builder.len(), 10);
    builder.append(">");
  });
  assert_eq!(format!("{}", shown), "<a::b::::c>");
}

#[test]
fn endian_bytes_of_all_widths() {
  let bytes = BytesBuilder::<Vec<u8>>::build(|builder| {
    builder.append_be(0x12u8);
    builder.append_le(0x1234u16);
    builder.append_be(0x1234u16);
    builder.append_be(0x0102_0304u32);
    builder.append_le(0x0102_0304_0506_0708u64);
    builder.append_be(1u128);
    builder.append_be(-1i8);
    builder.append_le(-2i16);
    builder.append_be(i32::MIN);
    builder.append_be(-1i128);
  })
  .unwrap();
  let mut expected = vec![0x12, 0x34, 0x12, 0x12, 0x34, 1, 2, 3, 4, 8, 7, 6, 5, 4, 3, 2, 1];
  expected.extend_from_slice(&1u128.to_be_bytes());
  expected.extend_from_slice(&[0xff, 0xfe, 0xff, 0x80, 0, 0, 0]);
  expected.extend_from_slice(&[0xff; 16]);
  assert_eq!(bytes, expected);
}

#[test]
fn endian_bytes_agree_with_std() {
  let bytes = BytesBuilder::<Vec<u8>>::build(|builder| {
    builder.append_be(usize::MAX - 5);
    builder.append_le(usize::MAX - 5);
    builder.append_be(-77isize);
    builder.append_le(isize::MIN);
    builder.append_le(i64::MIN);
    builder.append_be(i128::MIN);
    builder.append_le(u128::MAX - 1);
    builder.append_be(i16::MAX);
  })
  .unwrap();
  let mut expected = Vec::new();
  expected.extend_from_slice(&(usize::MAX - 5).to_be_bytes());
  expected.extend_from_slice(&(usize::MAX - 5).to_le_bytes());
  expected.extend_from_slice(&(-77isize).to_be_bytes());
  expected.extend_from_slice(&isize::MIN.to_le_bytes());
  expected.extend_from_slice(&i64::MIN.to_le_bytes());
  expected.extend_from_slice(&i128::MIN.to_be_bytes());
  expected.extend_from_slice(&(u128::MAX - 1).to_le_bytes());
  expected.extend_from_slice(&i16::MAX.to_be_bytes());
  assert_eq!(bytes, expected);
}

#[test]
fn integers_as_decimal_text() {
  let text = StringBuilder::<String>::build(|builder| {
    builder.append(0u8);
    builder.append(' ');
    builder.append(255u8);
    builder.append(' ');
    builder.append(-128i8);
    builder.append(' ');
    builder.append(i16::MIN);
    builder.append(' ');
    builder.append(u16::MAX);
    builder.append(' ');
    builder.append(i32::MIN);
    builder.append(' ');
    builder.append(u32::MAX);
    builder.append(' ');
    builder.append(i64::MIN);
    builder.append(' ');
    builder.append(u64::MAX);
    builder.append(' ');
    builder.append(i128::MIN);
    builder.append(' ');
    builder.append(u128::MAX);
    builder.append(' ');
    builder.append(isize::MIN);
    builder.append(' ');
    builder.append(usize::MAX);
    builder.append(' ');
    builder.append(-7i64);
    builder.append(' ');
    builder.append(1000i128);
  })
  .unwrap();
  let expected = format!(
    "0 255 -128 {} {} {} {} {} {} {} {} {} {} -7 1000",
    i16::MIN,
    u16::MAX,
    i32::MIN,
    u32::MAX,
    i64::MIN,
    u64::MAX,
    i128::MIN,
    u128::MAX,
    isize::MIN,
    usize::MAX
  );
  assert_eq!(text, expected);
}

#[test]
fn integer_lengths() {
  assert_eq!(0u32.byte_len(), 1);
  assert_eq!(9u32.byte_len(), 1);
  assert_eq!(10u32.byte_len(), 2);
  assert_eq!(u64::MAX.byte_len(), 20);
  assert_eq!(u128::MAX.byte_len(), 39);
  assert_eq!((-1i8).byte_len(), 2);
  assert_eq!(i32::MIN.byte_len(), 11);
  assert_eq!(i128::MIN.byte_len(), 40);
  assert_eq!(i128::MAX.byte_len(), 39);
}

#[test]
fn integers_while_formatting() {
  let shown = Shown(|builder: &mut StringBuilder<String>| {
    builder.append(-42i16);
    builder.append('/');
    builder.append(u128::MAX);
  });
  assert_eq!(format!("{}", shown), format!("-42/{}", u128::MAX));
}

#[test]
fn characters_of_every_width() {
  let text = StringBuilder::<String>::build(|builder| {
    builder.append('a');
    builder.append('é');
    builder.append('€');
    builder.append('😀');
    assert!(builder.len() == 0 || builder.len() == 10);
  })
  .unwrap();
  assert_eq!(text, "aé€😀");
  let bytes = BytesBuilder::<Vec<u8>>::build(|builder| {
    builder.append('a');
    builder.append('é');
    builder.append('€');
    builder.append('😀');
  })
  .unwrap();
  assert_eq!(bytes, "aé€😀".as_bytes());
  let shown = Shown(|builder: &mut StringBuilder<String>| {
    builder.append('€');
    builder.append('x');
  });
  assert_eq!(format!("{}", shown), "€x");
}

#[test]
fn text_values() {
  let owned = String::from("owned");
  let borrowed: Cow<str> = Cow::Borrowed("borrowed");
  let cow_owned: Cow<str> = Cow::Owned(String::from("cow"));
  let text = StringBuilder::<String>::build(|builder| {
    builder.append("slice ");
    builder.append(&owned);
    builder.append(' ');
    builder.append(&borrowed);
    builder.append(' ');
    builder.append(&cow_owned);
  })
  .unwrap();
  assert_eq!(text, "slice owned borrowed cow");
  let bytes = BytesBuilder::<Vec<u8>>::build(|builder| {
    builder.append("slice ");
    builder.append(&owned);
    builder.append(&borrowed);
    builder.append(&cow_owned);
  })
  .unwrap();
  assert_eq!(bytes, b"slice ownedborrowedcow");
}

#[test]
fn byte_values() {
  let vector = vec![1u8, 2, 3];
  let slice: &[u8] = &[4, 5];
  let array = [6u8, 7, 8];
  let bytes = BytesBuilder::<Vec<u8>>::build(|builder| {
    builder.append(&vector);
    builder.append(slice);
    builder.append(array);
    builder.append(&array);
    builder.append(9u8);
    builder.append(Some(10u8));
    builder.append(None::<u8>);
  })
  .unwrap();
  assert_eq!(bytes, vec![1, 2, 3, 4, 5, 6, 7, 8, 6, 7, 8, 9, 10]);
}

#[test]
fn absent_value_appends_nothing() {
  assert_eq!(None::<&str>.byte_len(), 0);
  assert_eq!(Some("abc").byte_len(), 3);
  let mut pushed = String::from("kept");
  None::<&str>.push_to(&mut pushed);
  assert_eq!(pushed, "kept");
  let text = StringBuilder::<String>::build(|builder| {
    builder.append("a");
    builder.append(None::<char>);
    assert!(builder.len() == 1);
    builder.append(Some('b'));
  })
  .unwrap();
  assert_eq!(text, "ab");
  let shown = Shown(|builder: &mut StringBuilder<String>| {
    builder.append(None::<u32>);
    assert_eq!(builder.len(), 0);
    assert_eq!(builder.phase(), Phase::Formatting);
    builder.append(Some(5u32));
  });
  assert_eq!(format!("{}", shown), "5");
}

#[test]
fn failed_formatting_keeps_counting() {
  struct Watched;

  impl std::fmt::Display for Watched {
    fn fmt(&self, f: &mut std::fmt::Formatter<'_>) -> std::fmt::Result {
      let result = StringBuilder::fmt(f, |builder| {
        assert_eq!(builder.phase(), Phase::Formatting);
        builder.append("Will show");
        assert_eq!(builder.len(), 9);
        builder.append(Failing);
        assert_eq!(builder.phase(), Phase::FormattingFailed);
        assert_eq!(builder.len(), 10);
        builder.append("This won't");
        assert_eq!(builder.len(), 20);
        builder.append_with_replace("a/b", "/", "--");
        assert_eq!(builder.len(), 24);
        builder.append_owned_unsafe(6, || unreachable!());
        assert_eq!(builder.len(), 30);
        assert_eq!(builder.phase(), Phase::FormattingFailed);
      });
      assert_eq!(result, Err(std::fmt::Error));
      Ok(())
    }
  }

  assert_eq!(format!("{}", Watched), "Will show");
}

#[test]
fn owned_append_in_each_phase() {
  let calls = Cell::new(0usize);
  let routine = |builder: &mut StringBuilder<String>| {
    builder.append_owned_unsafe(10, || {
      calls.set(calls.get() + 1);
      "0123456789".to_string()
    });
  };
  assert_eq!(StringBuilder::<String>::measure(&routine), 10);
  assert_eq!(calls.get(), 0);
  let text = StringBuilder::<String>::build(routine).unwrap();
  assert_eq!(text, "0123456789");
  assert_eq!(calls.get(), 1);
  let shown = Shown(|builder: &mut StringBuilder<String>| {
    builder.append_owned_unsafe(3, || "abc".to_string());
    assert_eq!(builder.len(), 3);
  });
  assert_eq!(format!("{}", shown), "abc");
}

#[test]
fn allocation_failure_is_an_error() {
  let filled = Cell::new(false);
  let result = StringBuilder::<String>::build(|builder| {
    if builder.phase() == Phase::Filling {
      filled.set(true);
    }
    builder.append_owned_unsafe(usize::MAX, || unreachable!());
  });
  assert_eq!(result, Err(AllocationError));
  assert!(!filled.get());
  assert_eq!(<String as StringType>::with_capacity(usize::MAX), Err(AllocationError));
  assert_eq!(
    <Vec<u8> as BytesType>::with_capacity(usize::MAX),
    Err(AllocationError)
  );
  assert!(<ecow::EcoString as StringType>::with_capacity(usize::MAX).is_err());
  assert!(capacity_builder::eco_string::reserve(isize::MAX as usize - 31).is_err());
  assert!(capacity_builder::eco_string::reserve(20).is_ok());
  assert!(HipString::reserve(isize::MAX as usize + 1).is_err());
  assert!(HipString::reserve(20).is_ok());
}

#[test]
fn reservation_outcome_decides() {
  let mut probe: Vec<u8> = Vec::new();
  let refused = probe.try_reserve_exact(usize::MAX);
  assert!(refused.is_err());
  assert_eq!(
    capacity_builder::container::reserved_or_error(String::from("kept"), refused),
    Err(AllocationError)
  );
  let granted = probe.try_reserve_exact(4);
  assert!(granted.is_ok());
  assert_eq!(
    capacity_builder::container::reserved_or_error(String::from("kept"), granted),
    Ok(String::from("kept"))
  );
}

#[test]
fn fill_passes_a_failed_reservation_on() {
  let routine = |builder: &mut StringBuilder<String>| builder.append("abc");
  let failed = StringBuilder::<String>::fill(3, Err(AllocationError), &routine);
  assert_eq!(failed, Err(AllocationError));
  let filled = StringBuilder::<String>::fill(3, Ok(String::new()), &routine);
  assert_eq!(filled, Ok("abc".to_string()));
  let bytes = |builder: &mut BytesBuilder<Vec<u8>>| builder.append("abc");
  assert_eq!(
    BytesBuilder::<Vec<u8>>::fill(3, Err(AllocationError), &bytes),
    Err(AllocationError)
  );
  assert_eq!(BytesBuilder::<Vec<u8>>::fill(3, Ok(Vec::new()), &bytes), Ok(b"abc".to_vec()));
}

#[test]
fn to_string_of_one_value() {
  let text: String = appendable_to_string("Hello there!").unwrap();
  assert_eq!(text, "Hello there!");
  let number: Box<str> = appendable_to_string(-15i32).unwrap();
  assert_eq!(&*number, "-15");
  let eco: ecow::EcoString = appendable_to_string('é').unwrap();
  assert_eq!(eco, "é");
}

#[test]
fn small_string_containers() {
  let long = "a text that is longer than what either container keeps inline";
  let eco = StringBuilder::<ecow::EcoString>::build(|builder| {
    builder.append(long);
    builder.append('→');
    builder.append(42u8);
    assert!(builder.len() == 0 || builder.len() == long.len() + 5);
  })
  .unwrap();
  assert_eq!(eco, format!("{}→42", long));
  let hip = StringBuilder::<HipString>::build(|builder| {
    builder.append(long);
    builder.append('→');
    builder.append(42u8);
    assert!(builder.len() == 0 || builder.len() == long.len() + 5);
  })
  .unwrap();
  assert_eq!(hip.as_str(), format!("{}→42", long));
  let again = StringBuilder::<String>::build(|builder| {
    builder.append(&hip);
    builder.append(&eco);
  })
  .unwrap();
  assert_eq!(again, format!("{}→42{}→42", long, long));
}

struct Counted {
  runs: Cell<usize>,
  text: &'static str,
}

impl StringAppendable for &Counted {
  fn append_to_builder<'a, 'f, TString: StringType>(
    self,
    builder: &mut StringBuilder<'a, 'f, TString>,
  ) {
    self.runs.set(self.runs.get() + 1);
    builder.append(self.text);
    builder.append('!');
  }
}

#[test]
fn deferred_capacity_is_measured_once() {
  let counted = Counted { runs: Cell::new(0), text: "Hello" };
  let deferred = DeferredStringBuilder::new(&counted);
  assert_eq!(counted.runs.get(), 0);
  assert_eq!(deferred.capacity(), 6);
  assert_eq!(counted.runs.get(), 1);
  assert_eq!(deferred.capacity(), 6);
  assert_eq!(deferred.capacity(), 6);
  assert_eq!(counted.runs.get(), 1);
}

#[test]
fn deferred_capacity_of_nothing_is_measured_each_time() {
  struct Nothing(Cell<usize>);

  impl StringAppendable for &Nothing {
    fn append_to_builder<'a, 'f, TString: StringType>(
      self,
      builder: &mut StringBuilder<'a, 'f, TString>,
    ) {
      self.0.set(self.0.get() + 1);
      builder.append("");
    }
  }

  let nothing = Nothing(Cell::new(0));
  let deferred = DeferredStringBuilder::new(&nothing);
  assert_eq!(deferred.capacity(), 0);
  assert_eq!(deferred.capacity(), 0);
  assert_eq!(nothing.0.get(), 2);
}

#[test]
fn deferred_builds_and_writes() {
  struct Written<'a>(&'a DeferredStringBuilder<&'a Counted>);

  impl std::fmt::Display for Written<'_> {
    fn fmt(&self, f: &mut std::fmt::Formatter<'_>) -> std::fmt::Result {
      self.0.write_into(f)
    }
  }

  let counted = Counted { runs: Cell::new(0), text: "Hello" };
  let deferred = DeferredStringBuilder::new(&counted);
  let text: String = deferred.build_to_owned().unwrap();
  assert_eq!(text, "Hello!");
  assert_eq!(counted.runs.get(), 2);
  let boxed: Box<str> = deferred.build_to_owned().unwrap();
  assert_eq!(&*boxed, "Hello!");
  assert_eq!(counted.runs.get(), 3);
  assert_eq!(format!("[{}]", Written(&deferred)), "[Hello!]");
  assert_eq!(counted.runs.get(), 4);
}

#[test]
fn deferred_is_appended_without_being_measured_again() {
  let counted = Counted { runs: Cell::new(0), text: "abc" };
  let deferred = DeferredStringBuilder::new(&counted);
  let text = StringBuilder::<String>::build(|builder| {
    builder.append("<");
    builder.append(&deferred);
    builder.append("|");
    builder.append(&deferred);
    builder.append(">");
  })
  .unwrap();
  assert_eq!(text, "<abc!|abc!>");
  // measured once, then run once for each of the two places it is filled in
  assert_eq!(counted.runs.get(), 3);
  let again = StringBuilder::<String>::build(|builder| {
    builder.append(&deferred);
  })
  .unwrap();
  assert_eq!(again, "abc!");
  assert_eq!(counted.runs.get(), 4);
}

#[test]
fn room_for_nothing_is_always_had() {
  assert_eq!(<String as StringType>::with_capacity(0), Ok(String::new()));
  assert_eq!(<Box<str> as StringType>::with_capacity(0), Ok(String::new()));
  assert_eq!(<Vec<u8> as BytesType>::with_capacity(0), Ok(Vec::new()));
  assert_eq!(<Box<[u8]> as BytesType>::with_capacity(0), Ok(Vec::new()));
  let text = StringBuilder::<String>::build(|builder| {
    builder.append("");
    builder.append(None::<u8>);
    builder.append_with_replace("", "/", "+");
  });
  assert_eq!(text, Ok(String::new()));
  let bytes = BytesBuilder::<Box<[u8]>>::build(|builder| {
    builder.append("");
  });
  assert_eq!(bytes, Ok(Vec::new().into_boxed_slice()));
  let empty: Result<String, AllocationError> = appendable_to_string("");
  assert_eq!(empty, Ok(String::new()));
  let deferred = DeferredStringBuilder::new("");
  let owned: Result<Box<str>, AllocationError> = deferred.build_to_owned();
  assert_eq!(owned, Ok(String::new().into_boxed_str()));
}

#[test]
fn small_string_containers_reserve_what_they_can_hold() {
  assert!(<ecow::EcoString as StringType>::with_capacity(0).is_ok());
  assert!(<ecow::EcoString as StringType>::with_capacity(1000).is_ok());
  assert!(<ecow::EcoString as StringType>::with_capacity(isize::MAX as usize - 31).is_err());
  assert!(<HipString as StringType>::with_capacity(0).is_ok());
  assert!(<HipString as StringType>::with_capacity(1000).is_ok());
  assert!(<HipString as StringType>::with_capacity(isize::MAX as usize + 1).is_err());
  let refused = StringBuilder::<ecow::EcoString>::build(|builder| {
    builder.append_owned_unsafe(usize::MAX, || unreachable!());
  });
  assert!(refused.is_err());
  let refused = StringBuilder::<HipString>::build(|builder| {
    builder.append_owned_unsafe(usize::MAX, || unreachable!());
  });
  assert!(refused.is_err());
}

#[test]
fn nothing_is_written_for_an_empty_source() {
  struct Direct;

  impl std::fmt::Display for Direct {
    fn fmt(&self, f: &mut std::fmt::Formatter<'_>) -> std::fmt::Result {
      assert_eq!(capacity_builder::replace::write_replaced(f, "", "/", "+"), Ok(0));
      assert_eq!(capacity_builder::replace::write_replaced(f, "a/b", "/", "--"), Ok(4));
      Ok(())
    }
  }

  assert_eq!(format!("<{}>", Direct), "<a--b>");
}
