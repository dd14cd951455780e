use vstd::prelude::*;

verus! {

use vstd::pervasive::VecAdditionalExecFns;
use vstd::string::StringExecFns;
use crate::rgb::{Rgb, spec_pixel_pulses};
use crate::text::{spec_dec, u64_to_string};
use crate::ws2812_error::Ws2812Error;

#[verifier::external_type_specification]
#[verifier::external_body]
pub struct ExSpi(rppal::spi::Spi);

#[verifier::external_type_specification]
#[verifier::external_body]
pub struct ExBus(rppal::spi::Bus);

#[verifier::external_type_specification]
#[verifier::external_body]
pub struct ExSlaveSelect(rppal::spi::SlaveSelect);

/// Relies on rppal's Spi::new: opens the SPI bus device at the given clock
/// speed in mode 0, or reports why the device could not be opened.
#[verifier::external_body]
fn spi_open(
    bus: rppal::spi::Bus,
    ss: rppal::spi::SlaveSelect,
    clock_hz: u32,
) -> Result<rppal::spi::Spi, String> {
    match rppal::spi::Spi::new(bus, ss, clock_hz, rppal::spi::Mode::Mode0) {
        Ok(spi) => Ok(spi),
        Err(e) => Err(e.to_string()),
    }
}

/// Relies on rppal's Spi::write: clocks the buffer out on the bus and
/// reports how many bytes were written, or the I/O failure's text. Its
/// body is one write through the contained device descriptor and assigns
/// no field of the handle, so the handle is left as it was.
#[verifier::external_body]
fn spi_write(spi: &mut rppal::spi::Spi, data: &[u8]) -> (r: Result<usize, String>)
    ensures
        *final(spi) == *old(spi),
{
    match spi.write(data) {
        Ok(n) => Ok(n),
        Err(e) => Err(e.to_string()),
    }
}

/// A page's worth of one repeated colour.
pub open spec fn spec_filled(count: nat, c: Rgb) -> Seq<Rgb> {
    Seq::new(count, |i: int| c)
}

/// The byte stream that renders a sequence of pixels: the concatenation of
/// each pixel's pulse encoding, in address order, with no separators.
pub open spec fn spec_frame_pulses(pixels: Seq<Rgb>) -> Seq<u8>
    decreases pixels.len(),
{
    if pixels.len() == 0 {
        Seq::empty()
    } else {
        spec_frame_pulses(pixels.drop_last()) + spec_pixel_pulses(pixels.last())
    }
}

pub open spec fn spec_page_msg(page: nat) -> Seq<char> {
    "Page "@ + spec_dec(page) + " is out of range"@
}

pub open spec fn spec_led_msg(led: nat) -> Seq<char> {
    "Led "@ + spec_dec(led) + " is out of range"@
}

pub open spec fn spec_count_msg(count: nat) -> Seq<char> {
    "Led count "@ + spec_dec(count) + " is out of range"@
}

fn page_msg(page: usize) -> (out: String)
    ensures
        out@ == spec_page_msg(page as nat),
{
    let mut out = String::from_str("Page ");
    let num = u64_to_string(page as u64);
    out.append(num.as_str());
    out.append(" is out of range");
    out
}

fn led_msg(led: usize) -> (out: String)
    ensures
        out@ == spec_led_msg(led as nat),
{
    let mut out = String::from_str("Led ");
    let num = u64_to_string(led as u64);
    out.append(num.as_str());
    out.append(" is out of range");
    out
}

fn count_msg(count: usize) -> (out: String)
    ensures
        out@ == spec_count_msg(count as nat),
{
    let mut out = String::from_str("Led count ");
    let num = u64_to_string(count as u64);
    out.append(num.as_str());
    out.append(" is out of range");
    out
}

fn make_page(count: usize, color: Rgb) -> (out: Vec<Rgb>)
    ensures
        out@ == spec_filled(count as nat, color),
{
    let mut out: Vec<Rgb> = Vec::new();
    let mut i: usize = 0;
    while i < count
        invariant
            i <= count,
            out@.len() == i as nat,
            forall|j: int| 0 <= j < i ==> out@[j] == color,
        decreases count - i,
    {
        out.push(color);
        i = i + 1;
    }
    proof {
        assert(out@ =~= spec_filled(count as nat, color));
    }
    out
}

/// The strip driver: a fixed number of independently addressable pixel
/// pages, a cursor for the page most recently rendered, and the serial bus
/// handle the rendered bytes are written to (absent on a detached strip).
pub struct Strip {
    pub spi: Option<rppal::spi::Spi>,
    pub count: usize,
    pub pages: Vec<Vec<Rgb>>,
    pub current_page: usize,
}

impl Strip {
    /// Every page holds exactly `count` pixels; the page count never changes
    /// after construction.
    pub open spec fn wf(&self) -> bool {
        forall|i: int|
            0 <= i < self.pages@.len() ==> (#[trigger] self.pages@[i])@.len() == self.count as nat
    }

    /// All pages hold the given colour and nothing else changed since `old`.
    pub open spec fn spec_initial(&self, count: usize, pages: usize) -> bool {
        &&& self.count == count
        &&& self.pages@.len() == pages as nat
        &&& forall|i: int|
            0 <= i < pages ==> (#[trigger] self.pages@[i])@ == spec_filled(
                count as nat,
                Rgb { red: 0, green: 0, blue: 0 },
            )
        &&& self.current_page == 0
    }

    /// Open the bus and build a strip of `count` pixels with `pages` pages,
    /// every pixel black. A count above 1024 is out of range for the strip
    /// protocol's refresh timing.
    pub fn new(
        bus: rppal::spi::Bus,
        ss: rppal::spi::SlaveSelect,
        count: usize,
        pages: usize,
    ) -> (r: Result<Strip, Ws2812Error>)
        ensures
            count > 1024 ==> (r matches Err(e) && e matches Ws2812Error::LedOutOfRange(m) && m@
                == spec_count_msg(count as nat)),
            count <= 1024 ==> match r {
                Ok(s) => s.wf() && s.spec_initial(count, pages) && s.spi is Some,
                Err(e) => e is SpiError,
            },
    {
        if count > 1024 {
            return Err(Ws2812Error::LedOutOfRange(count_msg(count)));
        }
        match spi_open(bus, ss, 32_000_000) {
            Ok(spi) => Ok(Strip::with_port(Some(spi), count, pages)),
            Err(msg) => Err(Ws2812Error::SpiError(msg)),
        }
    }

    /// Build a strip with no bus attached: buffer operations work as usual,
    /// rendering reports a transport error.
    pub fn detached(count: usize, pages: usize) -> (r: Result<Strip, Ws2812Error>)
        ensures
            count > 1024 ==> (r matches Err(e) && e matches Ws2812Error::LedOutOfRange(m) && m@
                == spec_count_msg(count as nat)),
            count <= 1024 ==> (r matches Ok(s) && s.wf() && s.spec_initial(count, pages)
                && s.spi is None),
    {
        if count > 1024 {
            return Err(Ws2812Error::LedOutOfRange(count_msg(count)));
        }
        Ok(Strip::with_port(None, count, pages))
    }

    fn with_port(spi: Option<rppal::spi::Spi>, count: usize, pages: usize) -> (s: Strip)
        ensures
            s.wf(),
            s.spec_initial(count, pages),
            s.spi == spi,
    {
        let mut page_bufs: Vec<Vec<Rgb>> = Vec::new();
        let mut i: usize = 0;
        while i < pages
            invariant
                i <= pages,
                page_bufs@.len() == i as nat,
                forall|j: int|
                    0 <= j < i ==> (#[trigger] page_bufs@[j])@ == spec_filled(
                        count as nat,
                        Rgb { red: 0, green: 0, blue: 0 },
                    ),
            decreases pages - i,
        {
            page_bufs.push(make_page(count, Rgb::new(0, 0, 0)));
            i = i + 1;
        }
        Strip { spi, count, pages: page_bufs, current_page: 0 }
    }

    /// Set every pixel of the page to the given colour; fails when the page
    /// does not exist, and then changes nothing.
    pub fn fill(&mut self, page: usize, rgb: &Rgb) -> (r: Result<(), Ws2812Error>)
        requires
            old(self).wf(),
        ensures
            final(self).wf(),
            final(self).count == old(self).count,
            final(self).current_page == old(self).current_page,
            final(self).spi == old(self).spi,
            final(self).pages@.len() == old(self).pages@.len(),
            match r {
                Ok(()) => {
                    &&& page < old(self).pages@.len()
                    &&& final(self).pages@[page as int]@ == spec_filled(
                        old(self).count as nat,
                        *rgb,
                    )
                    &&& forall|i: int|
                        0 <= i < old(self).pages@.len() && i != page ==> (#[trigger] final(self).pages@[i])@ == old(self).pages@[i]@
                },
                Err(e) => {
                    &&& page >= old(self).pages@.len()
                    &&& e matches Ws2812Error::PageOutOfRange(m) && m@ == spec_page_msg(page as nat)
                    &&& final(self).pages@ == old(self).pages@
                },
            },
    {
        if self.pages.len() <= page {
            return Err(Ws2812Error::PageOutOfRange(page_msg(page)));
        }
        let fresh = make_page(self.count, *rgb);
        self.pages.set(page, fresh);
        Ok(())
    }

    /// Set one pixel of one page; fails when the page or the pixel index is
    /// out of range, and then changes nothing.
    pub fn set_led(&mut self, page: usize, led: usize, rgb: &Rgb) -> (r: Result<(), Ws2812Error>)
        requires
            old(self).wf(),
        ensures
            final(self).wf(),
            final(self).count == old(self).count,
            final(self).current_page == old(self).current_page,
            final(self).spi == old(self).spi,
            final(self).pages@.len() == old(self).pages@.len(),
            match r {
                Ok(()) => {
                    &&& page < old(self).pages@.len()
                    &&& led < old(self).count
                    &&& final(self).pages@[page as int]@ == old(self).pages@[page as int]@.update(
                        led as int,
                        *rgb,
                    )
                    &&& forall|i: int|
                        0 <= i < old(self).pages@.len() && i != page ==> (#[trigger] final(self).pages@[i])@ == old(self).pages@[i]@
                },
                Err(e) => {
                    &&& final(self).pages@ == old(self).pages@
                    &&& if page >= old(self).pages@.len() {
                        e matches Ws2812Error::PageOutOfRange(m) && m@ == spec_page_msg(page as nat)
                    } else {
                        led >= old(self).count && (e matches Ws2812Error::LedOutOfRange(m) && m@
                            == spec_led_msg(led as nat))
                    }
                },
            },
    {
        if self.pages.len() <= page {
            return Err(Ws2812Error::PageOutOfRange(page_msg(page)));
        }
        if led >= self.count {
            return Err(Ws2812Error::LedOutOfRange(led_msg(led)));
        }
        let mut taken: Vec<Rgb> = Vec::new();
        self.pages.set_and_swap(page, &mut taken);
        taken.set(led, *rgb);
        self.pages.set_and_swap(page, &mut taken);
        proof {
            assert(final(self).pages@ =~= old(self).pages@.update(
                page as int,
                final(self).pages@[page as int],
            ));
        }
        Ok(())
    }

    /// Replace the entire contents of a page; fails when the page does not
    /// exist or the replacement does not hold exactly one colour per pixel,
    /// and then changes nothing.
    pub fn set_page(&mut self, page: usize, colors: Vec<Rgb>) -> (r: Result<(), Ws2812Error>)
        requires
            old(self).wf(),
        ensures
            final(self).wf(),
            final(self).count == old(self).count,
            final(self).current_page == old(self).current_page,
            final(self).spi == old(self).spi,
            final(self).pages@.len() == old(self).pages@.len(),
            match r {
                Ok(()) => {
                    &&& page < old(self).pages@.len()
                    &&& colors@.len() == old(self).count
                    &&& final(self).pages@[page as int]@ == colors@
                    &&& forall|i: int|
                        0 <= i < old(self).pages@.len() && i != page ==> (#[trigger] final(self).pages@[i])@ == old(self).pages@[i]@
                },
                Err(e) => {
                    &&& final(self).pages@ == old(self).pages@
                    &&& if page >= old(self).pages@.len() {
                        e matches Ws2812Error::PageOutOfRange(m) && m@ == spec_page_msg(page as nat)
                    } else {
                        colors@.len() != old(self).count && (e matches Ws2812Error::LedOutOfRange(
                            m,
                        ) && m@ == spec_led_msg(colors@.len() as nat))
                    }
                },
            },
    {
        if self.pages.len() <= page {
            return Err(Ws2812Error::PageOutOfRange(page_msg(page)));
        }
        if colors.len() != self.count {
            return Err(Ws2812Error::LedOutOfRange(led_msg(colors.len())));
        }
        self.pages.set(page, colors);
        Ok(())
    }

    /// Set every pixel of the page to black.
    pub fn clear(&mut self, page: usize) -> (r: Result<(), Ws2812Error>)
        requires
            old(self).wf(),
        ensures
            final(self).wf(),
            final(self).count == old(self).count,
            final(self).current_page == old(self).current_page,
            final(self).spi == old(self).spi,
            final(self).pages@.len() == old(self).pages@.len(),
            match r {
                Ok(()) => {
                    &&& page < old(self).pages@.len()
                    &&& final(self).pages@[page as int]@ == spec_filled(
                        old(self).count as nat,
                        Rgb { red: 0, green: 0, blue: 0 },
                    )
                    &&& forall|i: int|
                        0 <= i < old(self).pages@.len() && i != page ==> (#[trigger] final(self).pages@[i])@ == old(self).pages@[i]@
                },
                Err(e) => {
                    &&& page >= old(self).pages@.len()
                    &&& e matches Ws2812Error::PageOutOfRange(m) && m@ == spec_page_msg(page as nat)
                    &&& final(self).pages@ == old(self).pages@
                },
            },
    {
        self.fill(page, &Rgb::new(0, 0, 0))
    }

    /// Encode one page into the exact byte stream the wire protocol
    /// requires: the concatenation of every pixel's 72-byte pulse pattern,
    /// in address order, with no separators.
    pub fn encode_page(&self, page: usize) -> (r: Result<Vec<u8>, Ws2812Error>)
        requires
            self.wf(),
        ensures
            match r {
                Ok(buffer) => {
                    &&& page < self.pages@.len()
                    &&& buffer@ == spec_frame_pulses(self.pages@[page as int]@)
                },
                Err(e) => {
                    &&& page >= self.pages@.len()
                    &&& e matches Ws2812Error::PageOutOfRange(m) && m@ == spec_page_msg(page as nat)
                },
            },
    {
        if self.pages.len() <= page {
            return Err(Ws2812Error::PageOutOfRange(page_msg(page)));
        }
        let n = self.pages[page].len();
        let mut buffer: Vec<u8> = Vec::new();
        let mut i: usize = 0;
        while i < n
            invariant
                i <= n,
                n == self.pages@[page as int]@.len(),
                page < self.pages@.len(),
                buffer@ == spec_frame_pulses(self.pages@[page as int]@.take(i as int)),
            decreases n - i,
        {
            let led = self.pages[page][i];
            let mut pulses = led.to_spi_data();
            buffer.append(&mut pulses);
            proof {
                let pix = self.pages@[page as int]@;
                assert(pix.take(i + 1).drop_last() =~= pix.take(i as int));
                assert(pix.take(i + 1).last() == pix[i as int]);
            }
            i = i + 1;
        }
        proof {
            assert(self.pages@[page as int]@.take(n as int) =~= self.pages@[page as int]@);
        }
        Ok(buffer)
    }

    /// Encode the page into its serial pulse stream and write it to the bus.
    /// Buffer contents are never changed; on success the page is recorded as
    /// the one most recently rendered. A missing or failing bus is a
    /// transport error and the frame attempt is abandoned.
    pub fn refresh(&mut self, page: usize) -> (r: Result<(), Ws2812Error>)
        requires
            old(self).wf(),
        ensures
            final(self).wf(),
            final(self).count == old(self).count,
            final(self).pages@ == old(self).pages@,
            final(self).spi == old(self).spi,
            page < old(self).pages@.len() && old(self).spi is None ==> r is Err,
            match r {
                Ok(()) => {
                    &&& page < old(self).pages@.len()
                    &&& final(self).current_page == page
                },
                Err(e) => {
                    &&& final(self).current_page == old(self).current_page
                    &&& if page >= old(self).pages@.len() {
                        e matches Ws2812Error::PageOutOfRange(m) && m@ == spec_page_msg(page as nat)
                    } else {
                        e is SpiError
                    }
                },
            },
    {
        let buffer = match self.encode_page(page) {
            Ok(buffer) => buffer,
            Err(e) => {
                return Err(e);
            },
        };

        match self.spi.take() {
            None => {
                self.spi = None;
                Err(Ws2812Error::SpiError(String::from_str("no bus attached")))
            },
            Some(mut port) => {
                let w = spi_write(&mut port, buffer.as_slice());
                self.spi = Some(port);
                match w {
                    Ok(_) => {
                        self.current_page = page;
                        Ok(())
                    },
                    Err(msg) => Err(Ws2812Error::SpiError(msg)),
                }
            },
        }
    }
}

} // verus!
