//! System-wide definitions: return codes, module error identifiers, the
//! calendar record, wake-up source indices and UART device registration.

use vstd::prelude::*;
use crate::registers::EXTERNAL_CRYSTAL_CLOCK;
use crate::power::{WakeUpSource, wake_bit};

verus! {

/// Standard return value of success.
pub const SUCCESS: i32 = 0;
/// Standard return value of failure.
pub const FAIL: i32 = 1;

pub const FMI_ERR_ID: u32 = 0xFFFF_0100;
pub const APU_ERR_ID: u32 = 0xFFFF_0200;
pub const USB_ERR_ID: u32 = 0xFFFF_0300;
pub const GDMA_ERR_ID: u32 = 0xFFFF_0400;
pub const JPG_ERR_ID: u32 = 0xFFFF_0500;
pub const DMAC_ERR_ID: u32 = 0xFFFF_0600;
pub const TMR_ERR_ID: u32 = 0xFFFF_0700;
pub const GE_ERR_ID: u32 = 0xFFFF_0800;
pub const AIC_ERR_ID: u32 = 0xFFFF_0900;
pub const SYSLIB_ERR_ID: u32 = 0xFFFF_0A00;
pub const USBO_ERR_ID: u32 = 0xFFFF_0C00;
pub const USBH_ERR_ID: u32 = 0xFFFF_0D00;
pub const RTC_ERR_ID: u32 = 0xFFFF_0E00;
pub const GPIO_ERR_ID: u32 = 0xFFFF_0F00;
pub const VIN_ERR_ID: u32 = 0xFFFF_1000;
pub const I2C_ERR_ID: u32 = 0xFFFF_1100;
pub const SPI_ERR_ID: u32 = 0xFFFF_1200;
pub const PWM_ERR_ID: u32 = 0xFFFF_1300;
pub const BLT_ERR_ID: u32 = 0xFFFF_1500;
pub const UART_ERR_ID: u32 = 0xFFFF_1700;
pub const LCD_ERR_ID: u32 = 0xFFFF_1800;
pub const ADC_ERR_ID: u32 = 0xFFFF_1A00;
pub const FAT_ERR_ID: u32 = 0xFFFF_8200;

/// Calendar date and time of day.
#[derive(Clone, Copy, Debug)]
pub struct DateTime {
    pub year: u32,
    pub mon: u32,
    pub day: u32,
    pub hour: u32,
    pub min: u32,
    pub sec: u32,
}

/// Bit index of each wake-up source in the MISCR wake-up fields.
pub const WAKEUP_GPIO: u32 = 0;
pub const WAKEUP_RTC: u32 = 1;
pub const WAKEUP_SDH: u32 = 2;
pub const WAKEUP_UART: u32 = 3;
pub const WAKEUP_UDC: u32 = 4;
pub const WAKEUP_UHC: u32 = 5;
pub const WAKEUP_ADC: u32 = 6;
pub const WAKEUP_KPI: u32 = 7;

/// Frequency of the external crystal, in Hz.
pub const EXTERNAL_XTAL_HZ: u32 = EXTERNAL_CRYSTAL_CLOCK;

/// The bit index of a wake-up source.
pub open spec fn wakeup_index(w: WakeUpSource) -> u32 {
    match w {
        WakeUpSource::Gpio => WAKEUP_GPIO,
        WakeUpSource::Rtc => WAKEUP_RTC,
        WakeUpSource::Sdh => WAKEUP_SDH,
        WakeUpSource::Uart => WAKEUP_UART,
        WakeUpSource::Udc => WAKEUP_UDC,
        WakeUpSource::Uhc => WAKEUP_UHC,
        WakeUpSource::Adc => WAKEUP_ADC,
        WakeUpSource::Kpi => WAKEUP_KPI,
    }
}

/// The wake-up bit indices and the wake-up source bits name the same
/// bits: each source's bit is 1 shifted left by its index.
pub proof fn lemma_wakeup_index_is_bit(w: WakeUpSource)
    ensures
        wake_bit(w) == 1u32 << wakeup_index(w),
        wakeup_index(w) < 8,
{
    assert(1u32 << 0u32 == 0x01u32 && 1u32 << 1u32 == 0x02u32 && 1u32 << 2u32 == 0x04u32
        && 1u32 << 3u32 == 0x08u32 && 1u32 << 4u32 == 0x10u32 && 1u32 << 5u32 == 0x20u32
        && 1u32 << 6u32 == 0x40u32 && 1u32 << 7u32 == 0x80u32) by (bit_vector);
}

/// Registration of a UART device: ports 0 and 1 exist and register with
/// `SUCCESS`; any other port is refused with -1.
pub fn register_uart_device(port: u32) -> (r: i32)
    ensures
        r == if port == 0 || port == 1 {
            SUCCESS
        } else {
            -1i32
        },
{
    match port {
        0 | 1 => SUCCESS,
        _ => -1,
    }
}

} // verus!
