//! Reading the board's cores, memory, model and sound devices from what
//! the system reports about itself.

use crate::error::ServiceError;
use crate::protocol::device::{AudioOutput, HardwareCapabilities};
use crate::text::chars_of;
use crate::text::decimal::{parse_usize, parsed_usize};
use crate::text::search::{contains_text, has_prefix, has_text, starts_with};
use crate::text::split::{
    line_ranges, lines_of, lowercase, lowercased, ranges_cover, second_field, second_field_range,
    trim_range, trimmed, word_ranges, words_of,
};
use vstd::prelude::*;
use vstd::string::*;

verus! {

/// How many of the lines from line `k` on begin with `processor`.
pub open spec fn processor_lines(lines: Seq<Seq<char>>, k: int) -> int
    decreases lines.len() - k,
{
    if k < 0 || k >= lines.len() {
        0
    } else if starts_with(lines[k], "processor"@) {
        1 + processor_lines(lines, k + 1)
    } else {
        processor_lines(lines, k + 1)
    }
}

/// The number of cores that a processor listing tells of: one for each
/// line that begins with `processor`, and never less than one.
pub open spec fn cpu_cores_of(cpu_info: Seq<char>) -> int {
    let count = processor_lines(lines_of(cpu_info), 0);
    if count < 1 {
        1
    } else {
        count
    }
}

/// The lines of `text`, each as a text of its own.
pub fn lines_in(text: &str) -> (lines: Vec<&str>)
    ensures
        lines@.map_values(|line: &str| line@) == lines_of(text@),
{
    let chars = chars_of(text);
    let ranges = line_ranges(&chars);
    let mut lines: Vec<&str> = Vec::new();
    let mut k: usize = 0;
    while k < ranges.len()
        invariant
            k <= ranges.len(),
            chars@ == text@,
            ranges_cover(chars@, ranges@, lines_of(text@)),
            lines.len() == k,
            forall|j: int| 0 <= j < k ==> (#[trigger] lines@[j])@ == lines_of(text@)[j],
        decreases ranges.len() - k,
    {
        let range = ranges[k];
        lines.push(text.substring_char(range.0, range.1));
        k += 1;
    }
    assert(lines@.map_values(|line: &str| line@) =~= lines_of(text@));
    lines
}

/// Counts the cores in a processor listing.
pub fn cpu_cores_in(cpu_info: &str) -> (cores: usize)
    ensures
        cores == cpu_cores_of(cpu_info@),
        cores >= 1,
{
    let lines = lines_in(cpu_info);
    let prefix = chars_of("processor");
    let ghost texts = lines_of(cpu_info@);
    let mut count: usize = 0;
    let mut k: usize = 0;
    while k < lines.len()
        invariant
            k <= lines.len(),
            count <= k,
            prefix@ == "processor"@,
            texts == lines_of(cpu_info@),
            lines@.map_values(|line: &str| line@) == texts,
            processor_lines(texts, 0) == count + processor_lines(texts, k as int),
        decreases lines.len() - k,
    {
        assert(texts[k as int] == lines@[k as int]@);
        let line = chars_of(lines[k]);
        if has_prefix(&line, &prefix) {
            count += 1;
        }
        k += 1;
    }
    if count < 1 {
        1
    } else {
        count
    }
}

/// The kilobytes of memory that a line of the memory report gives: the
/// second word of a line that begins with `MemTotal:`, where it is a
/// number.
pub open spec fn mem_total_kb(line: Seq<char>) -> Option<usize> {
    if starts_with(line, "MemTotal:"@) && words_of(line).len() >= 2 {
        parsed_usize(words_of(line)[1])
    } else {
        None
    }
}

/// The megabytes of memory that the lines from line `k` on tell of.
pub open spec fn memory_scan(lines: Seq<Seq<char>>, k: int) -> int
    decreases lines.len() - k,
{
    if k < 0 || k >= lines.len() {
        0
    } else {
        match mem_total_kb(lines[k]) {
            Some(kb) => kb as int / 1024,
            None => memory_scan(lines, k + 1),
        }
    }
}

/// The megabytes of memory that a memory report tells of: those of its
/// first line that gives the total, and nothing where no line does.
pub open spec fn memory_mb_of(mem_info: Seq<char>) -> int {
    memory_scan(lines_of(mem_info), 0)
}

/// Reads the kilobytes of memory from a line of the memory report.
pub fn mem_total_kb_in(line: &str) -> (kb: Option<usize>)
    ensures
        kb == mem_total_kb(line@),
{
    let chars = chars_of(line);
    let prefix = chars_of("MemTotal:");
    if !has_prefix(&chars, &prefix) {
        return None;
    }
    let words = word_ranges(&chars, 0, chars.len());
    assert(chars@.subrange(0, chars.len() as int) =~= chars@);
    if words.len() < 2 {
        return None;
    }
    let second = words[1];
    parse_usize(&chars, second.0, second.1)
}

/// Reads the megabytes of memory from a memory report.
pub fn memory_mb_in(mem_info: &str) -> (mb: usize)
    ensures
        mb == memory_mb_of(mem_info@),
{
    let lines = lines_in(mem_info);
    let ghost texts = lines_of(mem_info@);
    let mut k: usize = 0;
    while k < lines.len()
        invariant
            k <= lines.len(),
            texts == lines_of(mem_info@),
            lines@.map_values(|line: &str| line@) == texts,
            memory_scan(texts, 0) == memory_scan(texts, k as int),
        decreases lines.len() - k,
    {
        assert(texts[k as int] == lines@[k as int]@);
        match mem_total_kb_in(lines[k]) {
            Some(kb) => {
                return kb / 1024;
            },
            None => {},
        }
        k += 1;
    }
    0
}

/// The model that a line of the processor listing names: what stands
/// between its first colon and the next, without the white space around
/// it, in lower case.
pub open spec fn model_of(line: Seq<char>) -> Seq<char> {
    lowercased(trimmed(second_field(line, ':')))
}

/// The board that a model name stands for, if it is one that is known.
pub open spec fn known_board(model: Seq<char>) -> Option<Seq<char>> {
    if contains_text(model, "zero 2 w"@) {
        Some("raspberry-pi-zero-2-w"@)
    } else if contains_text(model, "pi 4"@) {
        Some("raspberry-pi-4-model-b"@)
    } else if contains_text(model, "pi 5"@) {
        Some("raspberry-pi-5-model-b"@)
    } else {
        None
    }
}

/// The board that a line of the processor listing tells of: the one that
/// its model stands for, where the line begins with `Model`.
pub open spec fn board_on_line(line: Seq<char>) -> Option<Seq<char>> {
    if starts_with(line, "Model"@) {
        known_board(model_of(line))
    } else {
        None
    }
}

/// The board that the lines from line `k` on tell of.
pub open spec fn board_scan(lines: Seq<Seq<char>>, k: int) -> Seq<char>
    decreases lines.len() - k,
{
    if k < 0 || k >= lines.len() {
        "unknown"@
    } else {
        match board_on_line(lines[k]) {
            Some(board) => board,
            None => board_scan(lines, k + 1),
        }
    }
}

/// The board that a processor listing tells of: that of its first line
/// that names a known model, and `unknown` where no line does.
pub open spec fn board_id_of(cpu_info: Seq<char>) -> Seq<char> {
    board_scan(lines_of(cpu_info), 0)
}

/// Reads the board from a line of the processor listing.
pub fn board_on_line_in(line: &str) -> (board: Option<String>)
    ensures
        match board {
            Some(id) => board_on_line(line@) == Some(id@),
            None => board_on_line(line@) is None,
        },
{
    let chars = chars_of(line);
    let prefix = chars_of("Model");
    if !has_prefix(&chars, &prefix) {
        return None;
    }
    let field = second_field_range(&chars, ':');
    let range = trim_range(&chars, field.0, field.1);
    let lower = lowercase(line.substring_char(range.0, range.1));
    let model = chars_of(lower.as_str());
    assert(model@ == model_of(line@));
    let zero = chars_of("zero 2 w");
    let four = chars_of("pi 4");
    let five = chars_of("pi 5");
    if has_text(&model, &zero) {
        Some(String::from_str("raspberry-pi-zero-2-w"))
    } else if has_text(&model, &four) {
        Some(String::from_str("raspberry-pi-4-model-b"))
    } else if has_text(&model, &five) {
        Some(String::from_str("raspberry-pi-5-model-b"))
    } else {
        None
    }
}

/// Reads the board from a processor listing.
pub fn board_id_in(cpu_info: &str) -> (board: String)
    ensures
        board@ == board_id_of(cpu_info@),
{
    let lines = lines_in(cpu_info);
    let ghost texts = lines_of(cpu_info@);
    let mut k: usize = 0;
    while k < lines.len()
        invariant
            k <= lines.len(),
            texts == lines_of(cpu_info@),
            lines@.map_values(|line: &str| line@) == texts,
            board_scan(texts, 0) == board_scan(texts, k as int),
        decreases lines.len() - k,
    {
        assert(texts[k as int] == lines@[k as int]@);
        match board_on_line_in(lines[k]) {
            Some(board) => {
                return board;
            },
            None => {},
        }
        k += 1;
    }
    String::from_str("unknown")
}

/// Whether a digital-to-analogue converter on the I2S bus shows in the
/// device tree or among the sound devices.
pub open spec fn i2s_dac_in(device_tree: Option<Seq<char>>, alsa_devices: Seq<char>) -> bool {
    ||| (device_tree matches Some(tree) && contains_text(tree, "HiFiBerry"@))
    ||| contains_text(lowercased(alsa_devices), "hifiberry"@)
    ||| contains_text(lowercased(alsa_devices), "i2s"@)
}

/// Whether a USB sound device shows among the sound devices.
pub open spec fn usb_audio_in(alsa_devices: Seq<char>) -> bool {
    contains_text(lowercased(alsa_devices), "usb audio"@)
}

/// Whether HDMI sound shows among the sound devices.
pub open spec fn hdmi_audio_in(alsa_devices: Seq<char>) -> bool {
    contains_text(lowercased(alsa_devices), "hdmi"@)
}

/// Whether the board's headphone jack shows among the sound devices.
pub open spec fn headphone_jack_in(alsa_devices: Seq<char>) -> bool {
    contains_text(alsa_devices, "Headphones"@) || contains_text(alsa_devices, "bcm2835"@)
}

/// Whether `text` holds `needle`.
pub fn text_contains(text: &str, needle: &str) -> (found: bool)
    ensures
        found == contains_text(text@, needle@),
{
    let text = chars_of(text);
    let needle = chars_of(needle);
    has_text(&text, &needle)
}

/// Whether `text`, put in lower case, holds `needle`.
pub fn lowercase_contains(text: &str, needle: &str) -> (found: bool)
    ensures
        found == contains_text(lowercased(text@), needle@),
{
    let lower = lowercase(text);
    text_contains(lower.as_str(), needle)
}

/// Looks for a converter on the I2S bus.
pub fn has_i2s_dac(device_tree: &Option<String>, alsa_devices: &str) -> (found: bool)
    ensures
        found == i2s_dac_in(
            match device_tree {
                Some(tree) => Some(tree@),
                None => None,
            },
            alsa_devices@,
        ),
{
    match device_tree {
        Some(tree) => {
            if text_contains(tree.as_str(), "HiFiBerry") {
                return true;
            }
        },
        None => {},
    }
    lowercase_contains(alsa_devices, "hifiberry") || lowercase_contains(alsa_devices, "i2s")
}

/// Looks for a USB sound device.
pub fn has_usb_audio(alsa_devices: &str) -> (found: bool)
    ensures
        found == usb_audio_in(alsa_devices@),
{
    lowercase_contains(alsa_devices, "usb audio")
}

/// Looks for HDMI sound.
pub fn has_hdmi_audio(alsa_devices: &str) -> (found: bool)
    ensures
        found == hdmi_audio_in(alsa_devices@),
{
    lowercase_contains(alsa_devices, "hdmi")
}

/// Looks for the board's headphone jack.
pub fn has_headphone_jack(alsa_devices: &str) -> (found: bool)
    ensures
        found == headphone_jack_in(alsa_devices@),
{
    text_contains(alsa_devices, "Headphones") || text_contains(alsa_devices, "bcm2835")
}

/// The outputs that the device tree and the sound devices show, the best
/// first; the headphone jack where they show none.
pub open spec fn audio_outputs_of(device_tree: Option<Seq<char>>, alsa_devices: Seq<char>) -> Seq<
    AudioOutput,
> {
    let found = (if i2s_dac_in(device_tree, alsa_devices) {
        seq![AudioOutput::I2S]
    } else {
        Seq::empty()
    }) + (if usb_audio_in(alsa_devices) {
        seq![AudioOutput::USB]
    } else {
        Seq::empty()
    }) + (if hdmi_audio_in(alsa_devices) {
        seq![AudioOutput::HDMI]
    } else {
        Seq::empty()
    }) + (if headphone_jack_in(alsa_devices) {
        seq![AudioOutput::Headphone]
    } else {
        Seq::empty()
    });
    if found.len() == 0 {
        seq![AudioOutput::Headphone]
    } else {
        found
    }
}

/// Lists the outputs that the device tree and the sound devices show.
pub fn audio_outputs_in(device_tree: &Option<String>, alsa_devices: &str) -> (outputs: Vec<
    AudioOutput,
>)
    ensures
        outputs@ == audio_outputs_of(
            match device_tree {
                Some(tree) => Some(tree@),
                None => None,
            },
            alsa_devices@,
        ),
        outputs@.len() >= 1,
{
    let mut outputs: Vec<AudioOutput> = Vec::new();
    if has_i2s_dac(device_tree, alsa_devices) {
        outputs.push(AudioOutput::I2S);
    }
    let ghost after_i2s = outputs@;
    if has_usb_audio(alsa_devices) {
        outputs.push(AudioOutput::USB);
    }
    let ghost after_usb = outputs@;
    if has_hdmi_audio(alsa_devices) {
        outputs.push(AudioOutput::HDMI);
    }
    let ghost after_hdmi = outputs@;
    if has_headphone_jack(alsa_devices) {
        outputs.push(AudioOutput::Headphone);
    }
    proof {
        let tree = match device_tree {
            Some(tree) => Some(tree@),
            None => None,
        };
        let empty = Seq::<AudioOutput>::empty();
        assert(after_i2s =~= if i2s_dac_in(tree, alsa_devices@) {
            seq![AudioOutput::I2S]
        } else {
            empty
        });
        assert(after_usb =~= after_i2s + (if usb_audio_in(alsa_devices@) {
            seq![AudioOutput::USB]
        } else {
            empty
        }));
        assert(after_hdmi =~= after_usb + (if hdmi_audio_in(alsa_devices@) {
            seq![AudioOutput::HDMI]
        } else {
            empty
        }));
        assert(outputs@ =~= after_hdmi + (if headphone_jack_in(alsa_devices@) {
            seq![AudioOutput::Headphone]
        } else {
            empty
        }));
    }
    if outputs.len() == 0 {
        outputs.push(AudioOutput::Headphone);
    }
    outputs
}

/// The output to play through: the converter on the I2S bus before USB,
/// USB before HDMI, HDMI before the headphone jack.
pub open spec fn preferred_output_of(outputs: Seq<AudioOutput>) -> AudioOutput {
    if outputs.contains(AudioOutput::I2S) {
        AudioOutput::I2S
    } else if outputs.contains(AudioOutput::USB) {
        AudioOutput::USB
    } else if outputs.contains(AudioOutput::HDMI) {
        AudioOutput::HDMI
    } else {
        AudioOutput::Headphone
    }
}

/// Whether `outputs` holds `wanted`.
pub fn offers(outputs: &Vec<AudioOutput>, wanted: AudioOutput) -> (found: bool)
    ensures
        found == outputs@.contains(wanted),
{
    let mut i: usize = 0;
    while i < outputs.len()
        invariant
            i <= outputs.len(),
            forall|j: int| 0 <= j < i ==> outputs@[j] != wanted,
        decreases outputs.len() - i,
    {
        if outputs[i] == wanted {
            return true;
        }
        i += 1;
    }
    false
}

/// Picks the output to play through.
pub fn select_preferred_output(outputs: &Vec<AudioOutput>) -> (preferred: AudioOutput)
    ensures
        preferred == preferred_output_of(outputs@),
        outputs@.len() > 0 ==> outputs@.contains(preferred),
{
    if offers(outputs, AudioOutput::I2S) {
        AudioOutput::I2S
    } else if offers(outputs, AudioOutput::USB) {
        AudioOutput::USB
    } else if offers(outputs, AudioOutput::HDMI) {
        AudioOutput::HDMI
    } else {
        proof {
            if outputs@.len() > 0 {
                let first = outputs@[0];
                assert(outputs@.contains(first));
                assert(first == AudioOutput::Headphone);
            }
        }
        AudioOutput::Headphone
    }
}

/// What becomes of a reading of the processor listing when the cores are
/// counted: their number, or the failure of the reading.
pub fn cpu_cores_from(reading: Result<String, ServiceError>) -> (cores: Result<usize, ServiceError>)
    ensures
        match reading {
            Ok(cpu_info) => cores matches Ok(count) && count == cpu_cores_of(cpu_info@),
            Err(failure) => cores == Err::<usize, ServiceError>(failure),
        },
{
    match reading {
        Ok(cpu_info) => Ok(cpu_cores_in(cpu_info.as_str())),
        Err(failure) => Err(failure),
    }
}

/// What becomes of a reading of the memory report: the megabytes it tells
/// of, or the failure of the reading.
pub fn memory_mb_from(reading: Result<String, ServiceError>) -> (memory: Result<usize, ServiceError>)
    ensures
        match reading {
            Ok(mem_info) => memory matches Ok(mb) && mb == memory_mb_of(mem_info@),
            Err(failure) => memory == Err::<usize, ServiceError>(failure),
        },
{
    match reading {
        Ok(mem_info) => Ok(memory_mb_in(mem_info.as_str())),
        Err(failure) => Err(failure),
    }
}

/// What becomes of a reading of the processor listing when the board is
/// looked for: the board it tells of, or the failure of the reading.
pub fn board_id_from(reading: Result<String, ServiceError>) -> (board: Result<String, ServiceError>)
    ensures
        match reading {
            Ok(cpu_info) => board matches Ok(id) && id@ == board_id_of(cpu_info@),
            Err(failure) => board == Err::<String, ServiceError>(failure),
        },
{
    match reading {
        Ok(cpu_info) => Ok(board_id_in(cpu_info.as_str())),
        Err(failure) => Err(failure),
    }
}

/// What becomes of a reading of the sound devices, given the device tree:
/// the outputs that the two show, or the failure of the reading.
pub fn audio_outputs_from(device_tree: &Option<String>, listing: Result<String, ServiceError>) -> (outputs:
    Result<Vec<AudioOutput>, ServiceError>)
    ensures
        match listing {
            Ok(alsa_devices) => outputs matches Ok(found) && found@ == audio_outputs_of(
                match device_tree {
                    Some(tree) => Some(tree@),
                    None => None,
                },
                alsa_devices@,
            ),
            Err(failure) => outputs == Err::<Vec<AudioOutput>, ServiceError>(failure),
        },
{
    match listing {
        Ok(alsa_devices) => Ok(audio_outputs_in(device_tree, alsa_devices.as_str())),
        Err(failure) => Err(failure),
    }
}

/// What was found out about the board, with the output to play through.
pub fn capabilities_of(
    cpu_cores: usize,
    ram_mb: usize,
    board_id: String,
    audio_outputs: Vec<AudioOutput>,
) -> (capabilities: HardwareCapabilities)
    ensures
        capabilities.cpu_cores == cpu_cores,
        capabilities.ram_mb == ram_mb,
        capabilities.board_id@ == board_id@,
        capabilities.audio_outputs@ == audio_outputs@,
        capabilities.preferred_output == preferred_output_of(audio_outputs@),
        audio_outputs@.len() > 0 ==> audio_outputs@.contains(capabilities.preferred_output),
{
    let preferred_output = select_preferred_output(&audio_outputs);
    HardwareCapabilities { cpu_cores, ram_mb, board_id, audio_outputs, preferred_output }
}

/// Reads what the system reports about itself.
pub trait SystemReaders: Send + Sync {
    /// The processor listing.
    fn read_cpu_info(&self) -> Result<String, ServiceError>;

    /// The memory report.
    fn read_mem_info(&self) -> Result<String, ServiceError>;

    /// The model in the device tree, where the system has one.
    fn read_device_tree(&self) -> Result<Option<String>, ServiceError>;

    /// The list of sound devices.
    fn list_alsa_devices(&self) -> Result<String, ServiceError>;
}

/// Finds out what the board can do.
pub struct HardwareDetector<R: SystemReaders> {
    readers: R,
}

impl<R: SystemReaders> HardwareDetector<R> {
    /// The readers that the detector asks.
    pub closed spec fn readers(&self) -> R {
        self.readers
    }

    /// A detector that asks `readers`.
    pub fn new(readers: R) -> (detector: Self)
        ensures
            detector.readers() == readers,
    {
        HardwareDetector { readers }
    }

    /// Finds out what the board can do. Fails where a reader does.
    pub fn detect(&self) -> (detected: Result<HardwareCapabilities, ServiceError>)
        ensures
            detected matches Ok(capabilities) ==> {
                &&& capabilities.cpu_cores >= 1
                &&& exists|cpu_info: Seq<char>|
                    capabilities.cpu_cores == #[trigger] cpu_cores_of(cpu_info)
                &&& exists|mem_info: Seq<char>|
                    capabilities.ram_mb == #[trigger] memory_mb_of(mem_info)
                &&& exists|cpu_info: Seq<char>|
                    capabilities.board_id@ == #[trigger] board_id_of(cpu_info)
                &&& exists|device_tree: Option<Seq<char>>, alsa_devices: Seq<char>|
                    capabilities.audio_outputs@ == #[trigger] audio_outputs_of(
                        device_tree,
                        alsa_devices,
                    )
                &&& capabilities.audio_outputs@.len() >= 1
                &&& capabilities.preferred_output == preferred_output_of(
                    capabilities.audio_outputs@,
                )
                &&& capabilities.audio_outputs@.contains(capabilities.preferred_output)
            },
    {
        let cpu_cores = match self.detect_cpu_cores() {
            Ok(cores) => cores,
            Err(failure) => {
                return Err(failure);
            },
        };
        let ram_mb = match self.detect_memory() {
            Ok(mb) => mb,
            Err(failure) => {
                return Err(failure);
            },
        };
        let board_id = match self.detect_board_id() {
            Ok(board) => board,
            Err(failure) => {
                return Err(failure);
            },
        };
        let audio_outputs = match self.detect_audio_outputs() {
            Ok(outputs) => outputs,
            Err(failure) => {
                return Err(failure);
            },
        };
        Ok(capabilities_of(cpu_cores, ram_mb, board_id, audio_outputs))
    }

    /// Counts the cores in the processor listing. Fails where the reader
    /// does.
    pub fn detect_cpu_cores(&self) -> (cores: Result<usize, ServiceError>)
        ensures
            cores matches Ok(count) ==> count >= 1 && exists|cpu_info: Seq<char>|
                count == #[trigger] cpu_cores_of(cpu_info),
    {
        cpu_cores_from(self.readers.read_cpu_info())
    }

    /// Reads the megabytes of memory from the memory report. Fails where
    /// the reader does.
    pub fn detect_memory(&self) -> (memory: Result<usize, ServiceError>)
        ensures
            memory matches Ok(mb) ==> exists|mem_info: Seq<char>|
                mb == #[trigger] memory_mb_of(mem_info),
    {
        memory_mb_from(self.readers.read_mem_info())
    }

    /// Reads the board from the processor listing. Fails where the reader
    /// does.
    pub fn detect_board_id(&self) -> (board: Result<String, ServiceError>)
        ensures
            board matches Ok(id) ==> exists|cpu_info: Seq<char>|
                id@ == #[trigger] board_id_of(cpu_info),
    {
        board_id_from(self.readers.read_cpu_info())
    }

    /// Lists the outputs that the device tree and the sound devices show.
    /// Fails where a reader does.
    pub fn detect_audio_outputs(&self) -> (outputs: Result<Vec<AudioOutput>, ServiceError>)
        ensures
            outputs matches Ok(found) ==> found@.len() >= 1 && exists|
                device_tree: Option<Seq<char>>,
                alsa_devices: Seq<char>,
            | found@ == #[trigger] audio_outputs_of(device_tree, alsa_devices),
    {
        match self.readers.read_device_tree() {
            Ok(device_tree) => audio_outputs_from(&device_tree, self.readers.list_alsa_devices()),
            Err(failure) => Err(failure),
        }
    }
}

} // verus!
