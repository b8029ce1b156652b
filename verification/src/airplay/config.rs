//! The daemon's configuration and the text of its configuration file.

use crate::protocol::device::AudioOutput;
use crate::text::chars_of;
use crate::text::decimal::{
    lemma_seconds_text_chars, lemma_seconds_text_round_trip, parse_seconds, parsed_seconds,
    render_seconds, rounded_millis, seconds_text,
};
use crate::text::search::{has_prefix, matches_at, occurs_at, starts_with};
use crate::text::split::{
    lemma_lines_scan_run, line_ranges, lines_of, lines_scan, ranges_cover, without_cr,
};
use vstd::prelude::*;
use vstd::string::*;

verus! {

/// What the receiver sets in the daemon's configuration.
#[derive(Debug, Clone, PartialEq, Eq)]
pub struct ShairportConfig {
    /// The name under which the receiver is announced.
    pub device_name: String,
    /// The sound device that the daemon plays to.
    pub output_device: String,
    /// By how many microseconds the daemon shifts its output: negative to
    /// play earlier, positive to play later.
    pub latency_offset_us: i64,
}

/// The mathematical content of a [`ShairportConfig`].
pub struct ShairportConfigModel {
    pub device_name: Seq<char>,
    pub output_device: Seq<char>,
    pub latency_offset_us: int,
}

impl View for ShairportConfig {
    type V = ShairportConfigModel;

    open spec fn view(&self) -> ShairportConfigModel {
        ShairportConfigModel {
            device_name: self.device_name@,
            output_device: self.output_device@,
            latency_offset_us: self.latency_offset_us as int,
        }
    }
}

/// The name under which a receiver is announced unless it is given one.
pub const DEFAULT_DEVICE_NAME: &'static str = "AirSync";

/// The sound device behind each kind of output.
pub open spec fn output_device_name(output: AudioOutput) -> Seq<char> {
    match output {
        AudioOutput::I2S => "hw:0,0"@,
        AudioOutput::USB => "hw:1,0"@,
        AudioOutput::HDMI => "hdmi"@,
        AudioOutput::Headphone => "hw:0,0"@,
    }
}

/// The configuration of a receiver that has not been calibrated yet.
pub fn generate_config(device_name: Option<&str>, preferred_output: AudioOutput) -> (config:
    ShairportConfig)
    ensures
        config@ == (ShairportConfigModel {
            device_name: match device_name {
                Some(name) => name@,
                None => DEFAULT_DEVICE_NAME@,
            },
            output_device: output_device_name(preferred_output),
            latency_offset_us: 0,
        }),
{
    let output_device = match preferred_output {
        AudioOutput::I2S => String::from_str("hw:0,0"),
        AudioOutput::USB => String::from_str("hw:1,0"),
        AudioOutput::HDMI => String::from_str("hdmi"),
        AudioOutput::Headphone => String::from_str("hw:0,0"),
    };
    let device_name = match device_name {
        Some(name) => String::from_str(name),
        None => String::from_str(DEFAULT_DEVICE_NAME),
    };
    ShairportConfig { device_name, output_device, latency_offset_us: 0 }
}

/// The file up to the device name.
pub const CONFIG_HEAD: &'static str = "general = {\n    name = \"";

/// The file between the device name and the line of the latency offset.
pub const CONFIG_AFTER_NAME: &'static str =
    "\";\n    interpolation = \"soxr\";\n    output_backend = \"alsa\";\n    ";

/// What the line of the latency offset begins with, after its indentation.
pub const OFFSET_KEY: &'static str = "audio_backend_latency_offset_in_seconds = ";

/// The file between the latency offset and the output device.
pub const CONFIG_AFTER_OFFSET: &'static str = ";\n};\n\nalsa = {\n    output_device = \"";

/// The file after the output device.
pub const CONFIG_TAIL: &'static str =
    "\";\n    audio_backend_buffer_desired_length_in_seconds = 0.1;\n    output_rate = \"auto\"; // Let ALSA choose optimal rate\n    output_format = \"S16\"; // Standard 16-bit signed integer format\n    disable_synchronization = \"no\"; // Keep synchronization enabled\n};\n\nmetadata = {\n    enabled = \"yes\";\n    include_cover_art = \"yes\";\n    pipe_name = \"/tmp/shairport-sync-metadata\";\n};\n\nsessioncontrol = {\n    session_timeout = 20;\n};\n";

/// The text of the configuration file: fixed settings around the device
/// name, the latency offset in seconds with three decimals, and the output
/// device.
pub open spec fn config_file_text(config: ShairportConfigModel) -> Seq<char> {
    CONFIG_HEAD@ + config.device_name + CONFIG_AFTER_NAME@ + OFFSET_KEY@ + seconds_text(
        config.latency_offset_us,
    ) + CONFIG_AFTER_OFFSET@ + config.output_device + CONFIG_TAIL@
}

/// Writes the text of the configuration file.
pub fn render_config_file(config: &ShairportConfig) -> (rendered: String)
    ensures
        rendered@ == config_file_text(config@),
{
    let mut rendered = String::from_str(CONFIG_HEAD);
    rendered.append(config.device_name.as_str());
    rendered.append(CONFIG_AFTER_NAME);
    rendered.append(OFFSET_KEY);
    let offset = render_seconds(config.latency_offset_us);
    rendered.append(offset.as_str());
    rendered.append(CONFIG_AFTER_OFFSET);
    rendered.append(config.output_device.as_str());
    rendered.append(CONFIG_TAIL);
    rendered
}

/// The index of the first character of `line` at or after `i` that is no
/// space, or the length of `line`.
pub open spec fn leading_spaces(line: Seq<char>, i: int) -> int
    decreases line.len() - i,
{
    if 0 <= i < line.len() && line[i] == ' ' {
        leading_spaces(line, i + 1)
    } else {
        i
    }
}

/// The latency offset that a line of the file sets: what stands between
/// the key, which follows the indentation, and the semicolon that ends the
/// line.
pub open spec fn offset_on_line(line: Seq<char>) -> Option<Seq<char>> {
    let indent = leading_spaces(line, 0);
    let start = indent + OFFSET_KEY@.len();
    if occurs_at(line, OFFSET_KEY@, indent) && start < line.len() && line.last() == ';' {
        Some(line.subrange(start, line.len() - 1))
    } else {
        None
    }
}

/// The latency offset that the lines from line `k` on set: that of the
/// first line that sets one.
pub open spec fn offset_scan(lines: Seq<Seq<char>>, k: int) -> Option<Seq<char>>
    decreases lines.len() - k,
{
    if k < 0 || k >= lines.len() {
        None
    } else {
        match offset_on_line(lines[k]) {
            Some(field) => Some(field),
            None => offset_scan(lines, k + 1),
        }
    }
}

/// The latency offset that a configuration file sets, in thousandths of a
/// second; nothing where no line sets one or where it is not written in
/// seconds with three decimals.
pub open spec fn latency_offset_in(text: Seq<char>) -> Option<int> {
    match offset_scan(lines_of(text), 0) {
        Some(field) => parsed_seconds(field),
        None => None,
    }
}

/// Takes the latency offset from a line of the file.
pub fn offset_field_on(line: &str) -> (field: Option<&str>)
    ensures
        match field {
            Some(text) => offset_on_line(line@) == Some(text@),
            None => offset_on_line(line@) is None,
        },
{
    let chars = chars_of(line);
    let key = chars_of(OFFSET_KEY);
    let mut indent: usize = 0;
    while indent < chars.len() && chars[indent] == ' '
        invariant
            indent <= chars.len(),
            leading_spaces(chars@, 0) == leading_spaces(chars@, indent as int),
        decreases chars.len() - indent,
    {
        indent += 1;
    }
    if !matches_at(&chars, indent, &key) {
        return None;
    }
    let start = indent + key.len();
    if start < chars.len() && chars[chars.len() - 1] == ';' {
        Some(line.substring_char(start, chars.len() - 1))
    } else {
        None
    }
}

/// Reads the latency offset that a configuration file sets, in
/// thousandths of a second.
pub fn read_latency_offset(rendered: &str) -> (millis: Option<i64>)
    ensures
        millis == match latency_offset_in(rendered@) {
            Some(v) => if i64::MIN <= v <= i64::MAX {
                Some(v as i64)
            } else {
                None
            },
            None => None,
        },
{
    let chars = chars_of(rendered);
    let ranges = line_ranges(&chars);
    let ghost lines = lines_of(rendered@);
    let mut k: usize = 0;
    while k < ranges.len()
        invariant
            k <= ranges.len(),
            chars@ == rendered@,
            lines == lines_of(rendered@),
            ranges_cover(chars@, ranges@, lines),
            offset_scan(lines, 0) == offset_scan(lines, k as int),
        decreases ranges.len() - k,
    {
        let range = ranges[k];
        let line = rendered.substring_char(range.0, range.1);
        assert(line@ == lines[k as int]);
        match offset_field_on(line) {
            Some(field) => {
                return parse_seconds(field);
            },
            None => {},
        }
        k += 1;
    }
    None
}

/// Where the spaces of `line` from `i` on end.
pub proof fn lemma_leading_spaces(line: Seq<char>, i: int, end: int)
    requires
        0 <= i <= end <= line.len(),
        forall|j: int| i <= j < end ==> line[j] == ' ',
        end < line.len() ==> line[end] != ' ',
    ensures
        leading_spaces(line, i) == end,
    decreases end - i,
{
    if i < end {
        lemma_leading_spaces(line, i + 1, end);
    }
}

/// A line whose first character after its indentation is not that of the
/// key sets no latency offset.
pub proof fn lemma_other_line(line: Seq<char>, indent: int)
    requires
        0 <= indent < line.len(),
        forall|j: int| 0 <= j < indent ==> line[j] == ' ',
        line[indent] != ' ',
        line[indent] != 'a',
    ensures
        offset_on_line(line) is None,
{
    reveal_strlit("audio_backend_latency_offset_in_seconds = ");
    lemma_leading_spaces(line, 0, indent);
    if occurs_at(line, OFFSET_KEY@, indent) {
        assert(line.subrange(indent, indent + OFFSET_KEY@.len())[0] == OFFSET_KEY@[0]);
    }
}

/// Reading the latency offset back from the rendered file gives the
/// thousandths of a second nearest to the offset that was rendered,
/// whatever the output device and for every device name on one line.
pub proof fn lemma_rendered_offset_reads_back(config: ShairportConfigModel)
    requires
        !config.device_name.contains('\n'),
    ensures
        latency_offset_in(config_file_text(config)) == Some(
            rounded_millis(config.latency_offset_us),
        ),
        -500 <= rounded_millis(config.latency_offset_us) * 1000 - config.latency_offset_us
            <= 500,
{
    reveal_strlit("general = {\n    name = \"");
    reveal_strlit(
        "\";\n    interpolation = \"soxr\";\n    output_backend = \"alsa\";\n    ",
    );
    reveal_strlit("audio_backend_latency_offset_in_seconds = ");
    reveal_strlit(";\n};\n\nalsa = {\n    output_device = \"");
    let name = config.device_name;
    let number = seconds_text(config.latency_offset_us);
    lemma_seconds_text_chars(config.latency_offset_us);
    lemma_seconds_text_round_trip(config.latency_offset_us);
    let text = config_file_text(config);
    let m = name.len() as int;
    let n = number.len() as int;
    let after = 24 + m;
    let key = after + 64;
    let value = key + 42;
    assert(text.len() >= value + n + 36);
    assert forall|j: int| 0 <= j < value + n + 2 implies #[trigger] text[j] == (if j < 24 {
        CONFIG_HEAD@[j]
    } else if j < after {
        name[j - 24]
    } else if j < key {
        CONFIG_AFTER_NAME@[j - after]
    } else if j < value {
        OFFSET_KEY@[j - key]
    } else if j < value + n {
        number[j - value]
    } else {
        CONFIG_AFTER_OFFSET@[j - value - n]
    }) by {}
    assert forall|j: int| 0 <= j < m implies name[j] != '\n' by {
        if name[j] == '\n' {
            assert(name.contains('\n'));
        }
    }
    // The file begins with five lines that end at known places.
    let l0 = text.subrange(0, 11);
    let l1 = text.subrange(12, after + 2);
    let l2 = text.subrange(after + 3, after + 30);
    let l3 = text.subrange(after + 31, after + 59);
    let l4 = text.subrange(after + 60, value + n + 1);
    lemma_lines_scan_run(text, 0, 0, 11);
    lemma_lines_scan_run(text, 12, 12, after + 2);
    lemma_lines_scan_run(text, after + 3, after + 3, after + 30);
    lemma_lines_scan_run(text, after + 31, after + 31, after + 59);
    lemma_lines_scan_run(text, after + 60, after + 60, value + n + 1);
    assert(text[11] == '\n');
    assert(text[after + 2] == '\n');
    assert(text[after + 30] == '\n');
    assert(text[after + 59] == '\n');
    assert(text[value + n + 1] == '\n');
    let rest = lines_scan(text, value + n + 2, value + n + 2);
    assert(l0.last() == '{' && without_cr(l0) == l0);
    assert(l1.last() == ';' && without_cr(l1) == l1);
    assert(l2.last() == ';' && without_cr(l2) == l2);
    assert(l3.last() == ';' && without_cr(l3) == l3);
    assert(l4.last() == ';' && without_cr(l4) == l4);
    let lines = lines_of(text);
    assert(lines == seq![l0] + (seq![l1] + (seq![l2] + (seq![l3] + (seq![l4] + rest)))));
    assert(lines.len() >= 5);
    assert(lines[0] == l0 && lines[1] == l1 && lines[2] == l2 && lines[3] == l3 && lines[4] == l4);
    // None of the first four sets the offset.
    assert(l0[0] == 'g');
    lemma_other_line(l0, 0);
    assert(l1[4] == 'n');
    lemma_other_line(l1, 4);
    assert(l2[4] == 'i');
    lemma_other_line(l2, 4);
    assert(l3[4] == 'o');
    lemma_other_line(l3, 4);
    // The fifth does.
    assert(l4[4] == 'a');
    lemma_leading_spaces(l4, 0, 4);
    assert(l4.subrange(4, 46) =~= OFFSET_KEY@);
    assert(l4.subrange(46, l4.len() - 1) =~= number);
    assert(offset_on_line(l4) == Some(number));
    assert(offset_scan(lines, 4) == Some(number));
    assert(offset_scan(lines, 3) == Some(number));
    assert(offset_scan(lines, 2) == Some(number));
    assert(offset_scan(lines, 1) == Some(number));
    assert(offset_scan(lines, 0) == Some(number));
}

/// The kind of output that the name of a sound device stands for: HDMI
/// for a name that begins with `hdmi` or `hw:0,1`, USB for one that begins
/// with `hw:1,`, and the headphone jack for any other.
pub open spec fn audio_output_named(device: Seq<char>) -> AudioOutput {
    if starts_with(device, "hdmi"@) {
        AudioOutput::HDMI
    } else if starts_with(device, "hw:1,"@) {
        AudioOutput::USB
    } else if starts_with(device, "hw:0,1"@) {
        AudioOutput::HDMI
    } else {
        AudioOutput::Headphone
    }
}

/// Tells the kind of output from the name of a sound device.
pub fn parse_audio_output(device: &str) -> (output: AudioOutput)
    ensures
        output == audio_output_named(device@),
{
    let name = chars_of(device);
    let hdmi = chars_of("hdmi");
    let second_card = chars_of("hw:1,");
    let second_device = chars_of("hw:0,1");
    if has_prefix(&name, &hdmi) {
        AudioOutput::HDMI
    } else if has_prefix(&name, &second_card) {
        AudioOutput::USB
    } else if has_prefix(&name, &second_device) {
        AudioOutput::HDMI
    } else {
        AudioOutput::Headphone
    }
}

} // verus!
