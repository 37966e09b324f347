use local_storage_vec::fizzbuzz::fizz_buzz;

#[test]
fn test_fizz_buzz() {
    let expected_lines: Vec<&str> = vec![
        "1",
        "2",
        "Fizz",
        "4",
        "Buzz",
        "Fizz",
        "7",
        "8",
        "Fizz",
        "Buzz",
        "11",
        "Fizz",
        "13",
        "14",
        "FizzBuzz",
        "16",
        "17",
        "Fizz",
        "19",
        "Buzz",
        "Fizz",
        "22",
        "23",
        "Fizz",
        "Buzz",
        "26",
        "Fizz",
        "28",
        "29",
        "FizzBuzz",
        "31",
        "32",
        "Fizz",
        "34",
        "Buzz",
        "Fizz",
        "37",
        "38",
        "Fizz",
        "Buzz",
        "41",
        "Fizz",
        "43",
        "44",
        "FizzBuzz",
        "46",
        "47",
        "Fizz",
        "49",
        "Buzz",
        "Fizz",
        "52",
        "53",
        "Fizz",
        "Buzz",
        "56",
        "Fizz",
        "58",
        "59",
        "FizzBuzz",
        "61",
        "62",
        "Fizz",
        "64",
        "Buzz",
        "Fizz",
        "67",
        "68",
        "Fizz",
        "Buzz",
        "71",
        "Fizz",
        "73",
        "74",
        "FizzBuzz",
        "76",
        "77",
        "Fizz",
        "79",
        "Buzz",
        "Fizz",
        "82",
        "83",
        "Fizz",
        "Buzz",
        "86",
        "Fizz",
        "88",
        "89",
        "FizzBuzz",
        "91",
        "92",
        "Fizz",
        "94",
        "Buzz",
        "Fizz",
        "97",
        "98",
        "Fizz",
        "Buzz",
    ];

    let mut result = String::new();
    for (i, &line) in expected_lines.iter().enumerate() {
        let i = i as u32 + 1;
        fizz_buzz(i, &mut result);
        println!("i: {i}, current: {result} line: {line}");
        assert_eq!(result, line);
    }
}

#[test]
fn fizz_buzz_replaces_what_the_buffer_held() {
    let mut result = String::from("left over from an earlier call");
    fizz_buzz(7, &mut result);
    assert_eq!(result, "7");
    fizz_buzz(9, &mut result);
    assert_eq!(result, "Fizz");
    fizz_buzz(10, &mut result);
    assert_eq!(result, "Buzz");
    fizz_buzz(30, &mut result);
    assert_eq!(result, "FizzBuzz");
}

#[test]
fn fizz_buzz_of_zero_is_a_multiple_of_both() {
    let mut result = String::new();
    fizz_buzz(0, &mut result);
    assert_eq!(result, "FizzBuzz");
}

#[test]
fn fizz_buzz_writes_every_digit_of_a_long_number() {
    let mut result = String::new();
    fizz_buzz(1_000_003, &mut result);
    assert_eq!(result, "1000003");
    fizz_buzz(4_294_967_294, &mut result);
    assert_eq!(result, "4294967294");
    fizz_buzz(u32::MAX, &mut result);
    assert_eq!(result, "FizzBuzz");
}

#[test]
fn fizz_buzz_agrees_with_the_standard_formatting() {
    let mut result = String::new();
    for i in 1..=2000u32 {
        fizz_buzz(i, &mut result);
        if i % 3 != 0 && i % 5 != 0 {
            assert_eq!(result, format!("{}", i));
        }
    }
}
