//! The 1-Wire bus: the addresses of its devices, the temperature sensor among
//! them, and the report of a search.

use core::fmt::Write;
use vstd::prelude::*;
use vstd::utf8::encode_utf8;

use crate::digits::{
    hexadecimal, hexadecimal_is_canonical, hexadecimal_reads_back, hexadecimal_value,
    is_lower_hexadecimal_digit, is_upper_hexadecimal_digit, lemma_hexadecimal_len,
    padded_hexadecimal, padded_hexadecimal_has_width, padded_hexadecimal_is_injective,
    padded_hexadecimal_reads_back, power_of_16, push_hexadecimal,
};
use crate::message::{buffer_text, lemma_byte_len_ascii, new_buffer, Message};

verus! {

/// The address of the temperature sensor of the incubator.
pub const SENSOR_ADDRESS: u64 = 0x6B00_0000_363E_8B28;

/// The family code of the DS18B20.
pub const DS18B20_FAMILY_CODE: u8 = 0x28;

/// The family code of an address: its lowest byte.
pub open spec fn spec_family_code(address: u64) -> u8 {
    (address % 0x100) as u8
}

/// The 16 hexadecimal digits of an address.
pub open spec fn address_text(address: u64) -> Seq<char> {
    padded_hexadecimal(address as nat, 16)
}

/// The line that reports a device.
pub open spec fn device_text(address: u64) -> Seq<char> {
    "Found device at address "@ + address_text(address) + " with family code: 0x"@ + hexadecimal(
        spec_family_code(address) as nat,
    )
}

/// Calls `one_wire_bus::Address::family_code`, which gives the lowest byte of the
/// address.
#[verifier::external_body]
fn family_code_of(address: u64) -> (code: u8)
    ensures
        code == spec_family_code(address),
{
    one_wire_bus::Address(address).family_code()
}

/// Writes through the `Debug` impl of `one_wire_bus::Address`, which appends the
/// address with 16 upper-case hexadecimal digits and leading zeros to a buffer that
/// has room for them.
#[verifier::external_body]
fn write_address(buffer: &mut heapless::String<32>, address: u64)
    requires
        encode_utf8(buffer_text(*old(buffer))).len() + 16 <= 32,
    ensures
        buffer_text(*final(buffer)) == buffer_text(*old(buffer)) + address_text(address),
{
    let _ = write!(buffer, "{:?}", one_wire_bus::Address(address));
}

/// Calls `ds18b20::Ds18b20::new`, which accepts an address if and only if its
/// family code is that of the DS18B20.
#[verifier::external_body]
fn driver_accepts(address: u64) -> (accepted: bool)
    ensures
        accepted <==> spec_family_code(address) == DS18B20_FAMILY_CODE,
{
    ds18b20::Ds18b20::new::<core::convert::Infallible>(one_wire_bus::Address(address)).is_ok()
}

/// Why a device cannot serve as temperature sensor.
#[derive(Clone, Copy, Debug, PartialEq, Eq, Structural)]
pub enum AddressError {
    /// The address carries the family code of another kind of device.
    FamilyCodeMismatch,
}

/// What one step of a search of the bus gave.
#[derive(Clone, Copy, Debug, PartialEq, Eq, Structural)]
pub enum SearchEvent {
    /// A device answered from this address.
    Found(u64),
    /// The search went wrong.
    Failed,
    /// All devices have been found.
    Finished,
}

/// The line that reports a device, in three parts to be printed one after the other.
pub struct DeviceLine {
    /// What stands before the address.
    pub start: &'static str,
    /// The address.
    pub address: Message,
    /// The family code and what stands before it.
    pub family: Message,
}

impl View for DeviceLine {
    type V = Seq<char>;

    open spec fn view(&self) -> Seq<char> {
        self.start@ + self.address@ + self.family@
    }
}

/// What to do after one step of a search.
pub enum SearchAction {
    /// Print this line and search on.
    Report(DeviceLine),
    /// Stop the incubator.
    Halt,
    /// Leave the search.
    Leave,
}

/// What to do after one step of a search, with a line as its characters.
pub enum SearchStep {
    /// Print these characters and search on.
    Report(Seq<char>),
    /// Stop the incubator.
    Halt,
    /// Leave the search.
    Leave,
}

impl View for SearchAction {
    type V = SearchStep;

    open spec fn view(&self) -> SearchStep {
        match self {
            SearchAction::Report(line) => SearchStep::Report(line@),
            SearchAction::Halt => SearchStep::Halt,
            SearchAction::Leave => SearchStep::Leave,
        }
    }
}

/// What each event of a search calls for.
pub open spec fn search_step(event: SearchEvent) -> SearchStep {
    match event {
        SearchEvent::Found(address) => SearchStep::Report(device_text(address)),
        SearchEvent::Failed => SearchStep::Halt,
        SearchEvent::Finished => SearchStep::Leave,
    }
}

/// The family code of an address.
pub fn family_code(address: u64) -> (code: u8)
    ensures
        code == spec_family_code(address),
{
    family_code_of(address)
}

/// What the check of a sensor's address gives.
pub open spec fn spec_select_sensor(address: u64) -> Result<u64, AddressError> {
    if spec_family_code(address) == DS18B20_FAMILY_CODE {
        Ok(address)
    } else {
        Err(AddressError::FamilyCodeMismatch)
    }
}

/// Checks that an address belongs to a DS18B20, and gives it back if it does.
pub fn select_sensor(address: u64) -> (selected: Result<u64, AddressError>)
    ensures
        selected == spec_select_sensor(address),
        selected == if address % 0x100 == 0x28 {
            Ok::<u64, AddressError>(address)
        } else {
            Err(AddressError::FamilyCodeMismatch)
        },
{
    if driver_accepts(address) {
        Ok(address)
    } else {
        Err(AddressError::FamilyCodeMismatch)
    }
}

/// The line that reports a device.
pub fn device_line(address: u64) -> (line: DeviceLine)
    ensures
        line@ == device_text(address),
{
    let mut buffer = new_buffer();
    write_address(&mut buffer, address);
    assert(buffer_text(buffer) =~= address_text(address));
    let code: u8 = family_code(address);
    let mut family = Message::new();
    proof {
        reveal_strlit(" with family code: 0x");
        lemma_byte_len_ascii(" with family code: 0x"@);
        lemma_hexadecimal_len(code as nat);
        assert(family@ + " with family code: 0x"@ =~= " with family code: 0x"@);
    }
    family.push_str(" with family code: 0x");
    push_hexadecimal(&mut family, code as u64);
    let line = DeviceLine {
        start: "Found device at address ",
        address: Message::from_buffer(buffer),
        family,
    };
    assert(line@ =~= device_text(address));
    line
}

/// One step of a search for all devices of the bus: every device is reported, and a
/// failure stops the incubator.
pub fn find_devices(event: SearchEvent) -> (action: SearchAction)
    ensures
        action@ == search_step(event),
{
    match event {
        SearchEvent::Found(address) => SearchAction::Report(device_line(address)),
        SearchEvent::Failed => SearchAction::Halt,
        SearchEvent::Finished => SearchAction::Leave,
    }
}

/// The lines that a search prints, up to the event that ends it.
pub open spec fn printed_lines(events: Seq<SearchEvent>) -> Seq<Seq<char>>
    decreases events.len(),
{
    if events.len() == 0 {
        Seq::empty()
    } else {
        match search_step(events[0]) {
            SearchStep::Report(line) => seq![line] + printed_lines(events.drop_first()),
            _ => Seq::empty(),
        }
    }
}

/// A search prints one line for every device found before it ends or fails, in the
/// order in which they were found, and nothing after that.
pub proof fn every_found_device_is_reported(
    addresses: Seq<u64>,
    end: SearchEvent,
    later: Seq<SearchEvent>,
)
    requires
        end !is Found,
    ensures
        printed_lines(
            addresses.map_values(|address: u64| SearchEvent::Found(address)) + seq![end] + later,
        ) == addresses.map_values(|address: u64| device_text(address)),
    decreases addresses.len(),
{
    let found = addresses.map_values(|address: u64| SearchEvent::Found(address));
    let events = found + seq![end] + later;
    let lines = addresses.map_values(|address: u64| device_text(address));
    if addresses.len() == 0 {
        assert(events[0] == end);
        assert(lines =~= Seq::<Seq<char>>::empty());
    } else {
        let rest = addresses.drop_first();
        every_found_device_is_reported(rest, end, later);
        assert(events[0] == SearchEvent::Found(addresses[0]));
        assert(events.drop_first() =~= rest.map_values(
            |address: u64| SearchEvent::Found(address),
        ) + seq![end] + later);
        assert(lines =~= seq![device_text(addresses[0])] + rest.map_values(
            |address: u64| device_text(address),
        ));
    }
}

/// An address serves as sensor, unchanged, exactly when its lowest byte is 0x28.
pub proof fn sensors_are_told_by_their_lowest_byte(address: u64)
    ensures
        spec_select_sensor(address) is Ok <==> address % 0x100 == 0x28,
        spec_select_sensor(address) matches Ok(selected) ==> selected == address,
{
}

/// The address of the incubator's sensor is that of a DS18B20.
pub proof fn configured_sensor_is_a_ds18b20()
    ensures
        spec_family_code(SENSOR_ADDRESS) == DS18B20_FAMILY_CODE,
{
}

/// The report of a device tells its exact address and family code: the 16 upper-case
/// digits after the opening words read back to the address itself, and the lower-case
/// digits after `0x`, without leading zeros, to its lowest byte.
pub proof fn report_tells_the_exact_address(address: u64)
    ensures
        ({
            let line = device_text(address);
            let code = line.skip(61);
            &&& search_step(SearchEvent::Found(address)) == SearchStep::Report(line)
            &&& line.take(24) == "Found device at address "@
            &&& hexadecimal_value(line.subrange(24, 40)) == address
            &&& forall|i: int| 24 <= i < 40 ==> is_upper_hexadecimal_digit(#[trigger] line[i])
            &&& line.subrange(40, 61) == " with family code: 0x"@
            &&& hexadecimal_value(code) == address % 256
            &&& forall|i: int|
                0 <= i < code.len() ==> is_lower_hexadecimal_digit(#[trigger] code[i])
            &&& line.len() == if address % 256 < 16 {
                62int
            } else {
                63int
            }
            &&& spec_family_code(address) == address % 256
        }),
{
    let line = device_text(address);
    let digits = address_text(address);
    let family = hexadecimal(spec_family_code(address) as nat);
    reveal_strlit("Found device at address ");
    reveal_strlit(" with family code: 0x");
    reveal_with_fuel(power_of_16, 17);
    padded_hexadecimal_has_width(address as nat, 16);
    padded_hexadecimal_reads_back(address as nat, 16);
    hexadecimal_reads_back(spec_family_code(address) as nat);
    hexadecimal_is_canonical(spec_family_code(address) as nat);
    reveal_with_fuel(hexadecimal, 2);
    assert(line.take(24) =~= "Found device at address "@);
    assert(line.subrange(24, 40) =~= digits);
    assert(line.subrange(40, 61) =~= " with family code: 0x"@);
    assert(line.skip(61) =~= family);
    assert forall|i: int| 24 <= i < 40 implies is_upper_hexadecimal_digit(#[trigger] line[i]) by {
        assert(line[i] == digits[i - 24]);
    }
}

/// A failed search stops the incubator, and a finished one is left, without a line.
pub proof fn searches_end_without_a_line(event: SearchEvent)
    ensures
        search_step(event) is Halt <==> event is Failed,
        search_step(event) is Leave <==> event is Finished,
        search_step(event) is Report <==> event is Found,
{
}

/// Two devices are never reported by the same line.
pub proof fn reports_are_distinct(a: u64, b: u64)
    requires
        device_text(a) == device_text(b),
    ensures
        a == b,
{
    let start = "Found device at address "@;
    padded_hexadecimal_has_width(a as nat, 16);
    padded_hexadecimal_has_width(b as nat, 16);
    let from = start.len() as int;
    assert(device_text(a).subrange(from, from + 16) =~= address_text(a));
    assert(device_text(b).subrange(from, from + 16) =~= address_text(b));
    reveal_with_fuel(power_of_16, 17);
    padded_hexadecimal_is_injective(a as nat, b as nat, 16);
}

} // verus!
